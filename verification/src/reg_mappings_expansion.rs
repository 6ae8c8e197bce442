//! The tokens of `reg_mappings!`: the block's module, with for each
//! register its module (its fields' tokens and accessors, the register
//! token, its holder and its value), then an alias of each register.

use crate::case::{decimal, inflector_snake};
use crate::mappings::{
    MField, MFieldPlan, MFieldPlanV, MFieldV, MReg, MRegPlan, MRegPlanV, MRegV, mfield_plan_view,
    mfield_view, mreg_plan_view, mreg_view, reg_plan_by,
};
use crate::mappings_expansion::{
    emit_bind_list, emit_decimal, emit_fork_list, field_plans_view, fork_list, mreg_aliases,
};
use crate::reg_mappings::{reg_mappings, spec_reg_mappings_input};
use crate::thr_static::{one, one_exec};
use crate::thread_local::{emit_pound_attrs, pound_attrs};
use crate::token::{
    Delim, MacroError, Span, Tok, TokV, emit_close, emit_joint, emit_literal, emit_open, emit_punct,
    emit_span, emit_string, emit_word, first_use_after, ident_text, push_tok, span_toks, tclose, tj, tl, topen, toks_view,
    tp, tw,
};
use vstd::prelude::*;

verus! {

/// A part of `rmfield_bit_read`.
#[verifier::opaque]
pub open spec fn rmfield_bit_read_1(toks: Seq<Tok>, f: MFieldV, fp: MFieldPlanV, raw: Seq<char>) -> Seq<TokV> {
    tw("impl"@) + tp('<') + seq![TokV::Punct('\'', true)] + tw("a"@) + tp(',') + tw("_T"@) + tp(':') + tw("reg"@) + tj(':', ':') + tw("RegTag"@) + tp('>') + tw("self"@) + tj(':', ':') + tw("Hold"@) + tp('<') + seq![TokV::Punct('\'', true)] + tw("a"@) + tp(',') + tw("_T"@) + tp('>') + topen(Delim::Brace) + pound_attrs(toks, f.attrs) + tp('#') + topen(Delim::Bracket) + tw("inline"@) + topen(Delim::Paren) + tw("always"@) + tclose(Delim::Paren) + tclose(Delim::Bracket) + tw("pub"@)
}

#[verifier::spinoff_prover]
#[verifier::rlimit(80)]
fn emit_rmfield_bit_read_1(toks: &Vec<Tok>, f: &MField, fp: &MFieldPlan, raw: &String, out: &mut Vec<Tok>)
    ensures
        toks_view(final(out)@) == toks_view(old(out)@) + rmfield_bit_read_1(toks@, mfield_view(*f), mfield_plan_view(*fp), raw@),
{
    let ghost b = toks_view(old(out)@);
    emit_word(out, "impl");
    emit_punct(out, '<');
    push_tok(out, Tok::Punct('\'', true));
    emit_word(out, "a");
    emit_punct(out, ',');
    emit_word(out, "_T");
    emit_punct(out, ':');
    emit_word(out, "reg");
    emit_joint(out, ':', ':');
    emit_word(out, "RegTag");
    emit_punct(out, '>');
    emit_word(out, "self");
    emit_joint(out, ':', ':');
    emit_word(out, "Hold");
    emit_punct(out, '<');
    push_tok(out, Tok::Punct('\'', true));
    emit_word(out, "a");
    emit_punct(out, ',');
    emit_word(out, "_T");
    emit_punct(out, '>');
    emit_open(out, Delim::Brace);
    emit_pound_attrs(toks, &f.attrs, out);
    emit_punct(out, '#');
    emit_open(out, Delim::Bracket);
    emit_word(out, "inline");
    emit_open(out, Delim::Paren);
    emit_word(out, "always");
    emit_close(out, Delim::Paren);
    emit_close(out, Delim::Bracket);
    emit_word(out, "pub");
    proof {
        reveal(rmfield_bit_read_1);
    }
    assert(toks_view(out@) =~= b + rmfield_bit_read_1(toks@, mfield_view(*f), mfield_plan_view(*fp), raw@));
}

/// A part of `rmfield_bit_read`.
#[verifier::opaque]
pub open spec fn rmfield_bit_read_2(toks: Seq<Tok>, f: MFieldV, fp: MFieldPlanV, raw: Seq<char>) -> Seq<TokV> {
    tw("fn"@) + tw(fp.ident) + topen(Delim::Paren) + tp('&') + tw("self"@) + tclose(Delim::Paren) + tj('-', '>') + tw("bool"@) + topen(Delim::Brace) + tw("self"@) + tp('.') + tw("reg"@) + tp('.') + tw(fp.ident) + tp('.') + tw("read"@) + topen(Delim::Paren) + tp('&') + tw("self"@) + tp('.') + tw("val"@) + tclose(Delim::Paren) + tclose(Delim::Brace) + tclose(Delim::Brace)
}

#[verifier::spinoff_prover]
#[verifier::rlimit(80)]
fn emit_rmfield_bit_read_2(toks: &Vec<Tok>, f: &MField, fp: &MFieldPlan, raw: &String, out: &mut Vec<Tok>)
    ensures
        toks_view(final(out)@) == toks_view(old(out)@) + rmfield_bit_read_2(toks@, mfield_view(*f), mfield_plan_view(*fp), raw@),
{
    let ghost b = toks_view(old(out)@);
    emit_word(out, "fn");
    emit_string(out, &fp.ident);
    emit_open(out, Delim::Paren);
    emit_punct(out, '&');
    emit_word(out, "self");
    emit_close(out, Delim::Paren);
    emit_joint(out, '-', '>');
    emit_word(out, "bool");
    emit_open(out, Delim::Brace);
    emit_word(out, "self");
    emit_punct(out, '.');
    emit_word(out, "reg");
    emit_punct(out, '.');
    emit_string(out, &fp.ident);
    emit_punct(out, '.');
    emit_word(out, "read");
    emit_open(out, Delim::Paren);
    emit_punct(out, '&');
    emit_word(out, "self");
    emit_punct(out, '.');
    emit_word(out, "val");
    emit_close(out, Delim::Paren);
    emit_close(out, Delim::Brace);
    emit_close(out, Delim::Brace);
    proof {
        reveal(rmfield_bit_read_2);
    }
    assert(toks_view(out@) =~= b + rmfield_bit_read_2(toks@, mfield_view(*f), mfield_plan_view(*fp), raw@));
}

/// The getter of a one-bit field.
#[verifier::opaque]
pub open spec fn rmfield_bit_read(toks: Seq<Tok>, f: MFieldV, fp: MFieldPlanV, raw: Seq<char>) -> Seq<TokV> {
    rmfield_bit_read_1(toks, f, fp, raw) + rmfield_bit_read_2(toks, f, fp, raw)
}

#[verifier::spinoff_prover]
#[verifier::rlimit(80)]
fn emit_rmfield_bit_read(toks: &Vec<Tok>, f: &MField, fp: &MFieldPlan, raw: &String, out: &mut Vec<Tok>)
    ensures
        toks_view(final(out)@) == toks_view(old(out)@) + rmfield_bit_read(toks@, mfield_view(*f), mfield_plan_view(*fp), raw@),
{
    let ghost b = toks_view(old(out)@);
    emit_rmfield_bit_read_1(toks, f, fp, raw, out);
    emit_rmfield_bit_read_2(toks, f, fp, raw, out);
    proof {
        reveal(rmfield_bit_read);
    }
    assert(toks_view(out@) =~= b + rmfield_bit_read(toks@, mfield_view(*f), mfield_plan_view(*fp), raw@));
}

/// A part of `rmfield_bit_write`.
#[verifier::opaque]
pub open spec fn rmfield_bit_write_1(toks: Seq<Tok>, f: MFieldV, fp: MFieldPlanV, raw: Seq<char>) -> Seq<TokV> {
    tw("impl"@) + tp('<') + seq![TokV::Punct('\'', true)] + tw("a"@) + tp(',') + tw("_T"@) + tp(':') + tw("reg"@) + tj(':', ':') + tw("RegTag"@) + tp('>') + tw("self"@) + tj(':', ':') + tw("Hold"@) + tp('<') + seq![TokV::Punct('\'', true)] + tw("a"@) + tp(',') + tw("_T"@) + tp('>') + topen(Delim::Brace) + pound_attrs(toks, f.attrs) + tp('#') + topen(Delim::Bracket) + tw("inline"@) + topen(Delim::Paren) + tw("always"@) + tclose(Delim::Paren) + tclose(Delim::Bracket) + tw("pub"@)
}

#[verifier::spinoff_prover]
#[verifier::rlimit(80)]
fn emit_rmfield_bit_write_1(toks: &Vec<Tok>, f: &MField, fp: &MFieldPlan, raw: &String, out: &mut Vec<Tok>)
    ensures
        toks_view(final(out)@) == toks_view(old(out)@) + rmfield_bit_write_1(toks@, mfield_view(*f), mfield_plan_view(*fp), raw@),
{
    let ghost b = toks_view(old(out)@);
    emit_word(out, "impl");
    emit_punct(out, '<');
    push_tok(out, Tok::Punct('\'', true));
    emit_word(out, "a");
    emit_punct(out, ',');
    emit_word(out, "_T");
    emit_punct(out, ':');
    emit_word(out, "reg");
    emit_joint(out, ':', ':');
    emit_word(out, "RegTag");
    emit_punct(out, '>');
    emit_word(out, "self");
    emit_joint(out, ':', ':');
    emit_word(out, "Hold");
    emit_punct(out, '<');
    push_tok(out, Tok::Punct('\'', true));
    emit_word(out, "a");
    emit_punct(out, ',');
    emit_word(out, "_T");
    emit_punct(out, '>');
    emit_open(out, Delim::Brace);
    emit_pound_attrs(toks, &f.attrs, out);
    emit_punct(out, '#');
    emit_open(out, Delim::Bracket);
    emit_word(out, "inline");
    emit_open(out, Delim::Paren);
    emit_word(out, "always");
    emit_close(out, Delim::Paren);
    emit_close(out, Delim::Bracket);
    emit_word(out, "pub");
    proof {
        reveal(rmfield_bit_write_1);
    }
    assert(toks_view(out@) =~= b + rmfield_bit_write_1(toks@, mfield_view(*f), mfield_plan_view(*fp), raw@));
}

/// A part of `rmfield_bit_write`.
#[verifier::opaque]
pub open spec fn rmfield_bit_write_2(toks: Seq<Tok>, f: MFieldV, fp: MFieldPlanV, raw: Seq<char>) -> Seq<TokV> {
    tw("fn"@) + tw(fp.set_name) + topen(Delim::Paren) + tp('&') + tw("mut"@) + tw("self"@) + tclose(Delim::Paren) + tj('-', '>') + tp('&') + tw("mut"@) + tw("Self"@) + topen(Delim::Brace) + tw("self"@) + tp('.') + tw("reg"@) + tp('.') + tw(fp.ident) + tp('.') + tw("set"@) + topen(Delim::Paren) + tp('&') + tw("mut"@) + tw("self"@) + tp('.') + tw("val"@) + tclose(Delim::Paren) + tp(';') + tw("self"@) + tclose(Delim::Brace) + pound_attrs(toks, f.attrs)
}

#[verifier::spinoff_prover]
#[verifier::rlimit(80)]
fn emit_rmfield_bit_write_2(toks: &Vec<Tok>, f: &MField, fp: &MFieldPlan, raw: &String, out: &mut Vec<Tok>)
    ensures
        toks_view(final(out)@) == toks_view(old(out)@) + rmfield_bit_write_2(toks@, mfield_view(*f), mfield_plan_view(*fp), raw@),
{
    let ghost b = toks_view(old(out)@);
    emit_word(out, "fn");
    emit_string(out, &fp.set_name);
    emit_open(out, Delim::Paren);
    emit_punct(out, '&');
    emit_word(out, "mut");
    emit_word(out, "self");
    emit_close(out, Delim::Paren);
    emit_joint(out, '-', '>');
    emit_punct(out, '&');
    emit_word(out, "mut");
    emit_word(out, "Self");
    emit_open(out, Delim::Brace);
    emit_word(out, "self");
    emit_punct(out, '.');
    emit_word(out, "reg");
    emit_punct(out, '.');
    emit_string(out, &fp.ident);
    emit_punct(out, '.');
    emit_word(out, "set");
    emit_open(out, Delim::Paren);
    emit_punct(out, '&');
    emit_word(out, "mut");
    emit_word(out, "self");
    emit_punct(out, '.');
    emit_word(out, "val");
    emit_close(out, Delim::Paren);
    emit_punct(out, ';');
    emit_word(out, "self");
    emit_close(out, Delim::Brace);
    emit_pound_attrs(toks, &f.attrs, out);
    proof {
        reveal(rmfield_bit_write_2);
    }
    assert(toks_view(out@) =~= b + rmfield_bit_write_2(toks@, mfield_view(*f), mfield_plan_view(*fp), raw@));
}

/// A part of `rmfield_bit_write`.
#[verifier::opaque]
pub open spec fn rmfield_bit_write_3(toks: Seq<Tok>, f: MFieldV, fp: MFieldPlanV, raw: Seq<char>) -> Seq<TokV> {
    tp('#') + topen(Delim::Bracket) + tw("inline"@) + topen(Delim::Paren) + tw("always"@) + tclose(Delim::Paren) + tclose(Delim::Bracket) + tw("pub"@) + tw("fn"@) + tw(fp.clear_name) + topen(Delim::Paren) + tp('&') + tw("mut"@) + tw("self"@) + tclose(Delim::Paren) + tj('-', '>') + tp('&') + tw("mut"@) + tw("Self"@) + topen(Delim::Brace) + tw("self"@) + tp('.') + tw("reg"@) + tp('.') + tw(fp.ident) + tp('.') + tw("clear"@) + topen(Delim::Paren) + tp('&') + tw("mut"@)
}

#[verifier::spinoff_prover]
#[verifier::rlimit(80)]
fn emit_rmfield_bit_write_3(toks: &Vec<Tok>, f: &MField, fp: &MFieldPlan, raw: &String, out: &mut Vec<Tok>)
    ensures
        toks_view(final(out)@) == toks_view(old(out)@) + rmfield_bit_write_3(toks@, mfield_view(*f), mfield_plan_view(*fp), raw@),
{
    let ghost b = toks_view(old(out)@);
    emit_punct(out, '#');
    emit_open(out, Delim::Bracket);
    emit_word(out, "inline");
    emit_open(out, Delim::Paren);
    emit_word(out, "always");
    emit_close(out, Delim::Paren);
    emit_close(out, Delim::Bracket);
    emit_word(out, "pub");
    emit_word(out, "fn");
    emit_string(out, &fp.clear_name);
    emit_open(out, Delim::Paren);
    emit_punct(out, '&');
    emit_word(out, "mut");
    emit_word(out, "self");
    emit_close(out, Delim::Paren);
    emit_joint(out, '-', '>');
    emit_punct(out, '&');
    emit_word(out, "mut");
    emit_word(out, "Self");
    emit_open(out, Delim::Brace);
    emit_word(out, "self");
    emit_punct(out, '.');
    emit_word(out, "reg");
    emit_punct(out, '.');
    emit_string(out, &fp.ident);
    emit_punct(out, '.');
    emit_word(out, "clear");
    emit_open(out, Delim::Paren);
    emit_punct(out, '&');
    emit_word(out, "mut");
    proof {
        reveal(rmfield_bit_write_3);
    }
    assert(toks_view(out@) =~= b + rmfield_bit_write_3(toks@, mfield_view(*f), mfield_plan_view(*fp), raw@));
}

/// A part of `rmfield_bit_write`.
#[verifier::opaque]
pub open spec fn rmfield_bit_write_4(toks: Seq<Tok>, f: MFieldV, fp: MFieldPlanV, raw: Seq<char>) -> Seq<TokV> {
    tw("self"@) + tp('.') + tw("val"@) + tclose(Delim::Paren) + tp(';') + tw("self"@) + tclose(Delim::Brace) + pound_attrs(toks, f.attrs) + tp('#') + topen(Delim::Bracket) + tw("inline"@) + topen(Delim::Paren) + tw("always"@) + tclose(Delim::Paren) + tclose(Delim::Bracket) + tw("pub"@) + tw("fn"@) + tw(fp.toggle_name) + topen(Delim::Paren) + tp('&') + tw("mut"@) + tw("self"@) + tclose(Delim::Paren) + tj('-', '>') + tp('&') + tw("mut"@) + tw("Self"@) + topen(Delim::Brace) + tw("self"@) + tp('.')
}

#[verifier::spinoff_prover]
#[verifier::rlimit(80)]
fn emit_rmfield_bit_write_4(toks: &Vec<Tok>, f: &MField, fp: &MFieldPlan, raw: &String, out: &mut Vec<Tok>)
    ensures
        toks_view(final(out)@) == toks_view(old(out)@) + rmfield_bit_write_4(toks@, mfield_view(*f), mfield_plan_view(*fp), raw@),
{
    let ghost b = toks_view(old(out)@);
    emit_word(out, "self");
    emit_punct(out, '.');
    emit_word(out, "val");
    emit_close(out, Delim::Paren);
    emit_punct(out, ';');
    emit_word(out, "self");
    emit_close(out, Delim::Brace);
    emit_pound_attrs(toks, &f.attrs, out);
    emit_punct(out, '#');
    emit_open(out, Delim::Bracket);
    emit_word(out, "inline");
    emit_open(out, Delim::Paren);
    emit_word(out, "always");
    emit_close(out, Delim::Paren);
    emit_close(out, Delim::Bracket);
    emit_word(out, "pub");
    emit_word(out, "fn");
    emit_string(out, &fp.toggle_name);
    emit_open(out, Delim::Paren);
    emit_punct(out, '&');
    emit_word(out, "mut");
    emit_word(out, "self");
    emit_close(out, Delim::Paren);
    emit_joint(out, '-', '>');
    emit_punct(out, '&');
    emit_word(out, "mut");
    emit_word(out, "Self");
    emit_open(out, Delim::Brace);
    emit_word(out, "self");
    emit_punct(out, '.');
    proof {
        reveal(rmfield_bit_write_4);
    }
    assert(toks_view(out@) =~= b + rmfield_bit_write_4(toks@, mfield_view(*f), mfield_plan_view(*fp), raw@));
}

/// A part of `rmfield_bit_write`.
#[verifier::opaque]
pub open spec fn rmfield_bit_write_5(toks: Seq<Tok>, f: MFieldV, fp: MFieldPlanV, raw: Seq<char>) -> Seq<TokV> {
    tw("reg"@) + tp('.') + tw(fp.ident) + tp('.') + tw("toggle"@) + topen(Delim::Paren) + tp('&') + tw("mut"@) + tw("self"@) + tp('.') + tw("val"@) + tclose(Delim::Paren) + tp(';') + tw("self"@) + tclose(Delim::Brace) + tclose(Delim::Brace)
}

#[verifier::spinoff_prover]
#[verifier::rlimit(80)]
fn emit_rmfield_bit_write_5(toks: &Vec<Tok>, f: &MField, fp: &MFieldPlan, raw: &String, out: &mut Vec<Tok>)
    ensures
        toks_view(final(out)@) == toks_view(old(out)@) + rmfield_bit_write_5(toks@, mfield_view(*f), mfield_plan_view(*fp), raw@),
{
    let ghost b = toks_view(old(out)@);
    emit_word(out, "reg");
    emit_punct(out, '.');
    emit_string(out, &fp.ident);
    emit_punct(out, '.');
    emit_word(out, "toggle");
    emit_open(out, Delim::Paren);
    emit_punct(out, '&');
    emit_word(out, "mut");
    emit_word(out, "self");
    emit_punct(out, '.');
    emit_word(out, "val");
    emit_close(out, Delim::Paren);
    emit_punct(out, ';');
    emit_word(out, "self");
    emit_close(out, Delim::Brace);
    emit_close(out, Delim::Brace);
    proof {
        reveal(rmfield_bit_write_5);
    }
    assert(toks_view(out@) =~= b + rmfield_bit_write_5(toks@, mfield_view(*f), mfield_plan_view(*fp), raw@));
}

/// The setter, clearer and toggler of a one-bit field.
#[verifier::opaque]
pub open spec fn rmfield_bit_write(toks: Seq<Tok>, f: MFieldV, fp: MFieldPlanV, raw: Seq<char>) -> Seq<TokV> {
    rmfield_bit_write_1(toks, f, fp, raw) + rmfield_bit_write_2(toks, f, fp, raw) + rmfield_bit_write_3(toks, f, fp, raw) + rmfield_bit_write_4(toks, f, fp, raw) + rmfield_bit_write_5(toks, f, fp, raw)
}

#[verifier::spinoff_prover]
#[verifier::rlimit(80)]
fn emit_rmfield_bit_write(toks: &Vec<Tok>, f: &MField, fp: &MFieldPlan, raw: &String, out: &mut Vec<Tok>)
    ensures
        toks_view(final(out)@) == toks_view(old(out)@) + rmfield_bit_write(toks@, mfield_view(*f), mfield_plan_view(*fp), raw@),
{
    let ghost b = toks_view(old(out)@);
    emit_rmfield_bit_write_1(toks, f, fp, raw, out);
    emit_rmfield_bit_write_2(toks, f, fp, raw, out);
    emit_rmfield_bit_write_3(toks, f, fp, raw, out);
    emit_rmfield_bit_write_4(toks, f, fp, raw, out);
    emit_rmfield_bit_write_5(toks, f, fp, raw, out);
    proof {
        reveal(rmfield_bit_write);
    }
    assert(toks_view(out@) =~= b + rmfield_bit_write(toks@, mfield_view(*f), mfield_plan_view(*fp), raw@));
}

/// A part of `rmfield_bits_read`.
#[verifier::opaque]
pub open spec fn rmfield_bits_read_1(toks: Seq<Tok>, f: MFieldV, fp: MFieldPlanV, raw: Seq<char>) -> Seq<TokV> {
    tw("impl"@) + tp('<') + seq![TokV::Punct('\'', true)] + tw("a"@) + tp(',') + tw("_T"@) + tp(':') + tw("reg"@) + tj(':', ':') + tw("RegTag"@) + tp('>') + tw("self"@) + tj(':', ':') + tw("Hold"@) + tp('<') + seq![TokV::Punct('\'', true)] + tw("a"@) + tp(',') + tw("_T"@) + tp('>') + topen(Delim::Brace) + pound_attrs(toks, f.attrs) + tp('#') + topen(Delim::Bracket) + tw("inline"@) + topen(Delim::Paren) + tw("always"@) + tclose(Delim::Paren) + tclose(Delim::Bracket) + tw("pub"@)
}

#[verifier::spinoff_prover]
#[verifier::rlimit(80)]
fn emit_rmfield_bits_read_1(toks: &Vec<Tok>, f: &MField, fp: &MFieldPlan, raw: &String, out: &mut Vec<Tok>)
    ensures
        toks_view(final(out)@) == toks_view(old(out)@) + rmfield_bits_read_1(toks@, mfield_view(*f), mfield_plan_view(*fp), raw@),
{
    let ghost b = toks_view(old(out)@);
    emit_word(out, "impl");
    emit_punct(out, '<');
    push_tok(out, Tok::Punct('\'', true));
    emit_word(out, "a");
    emit_punct(out, ',');
    emit_word(out, "_T");
    emit_punct(out, ':');
    emit_word(out, "reg");
    emit_joint(out, ':', ':');
    emit_word(out, "RegTag");
    emit_punct(out, '>');
    emit_word(out, "self");
    emit_joint(out, ':', ':');
    emit_word(out, "Hold");
    emit_punct(out, '<');
    push_tok(out, Tok::Punct('\'', true));
    emit_word(out, "a");
    emit_punct(out, ',');
    emit_word(out, "_T");
    emit_punct(out, '>');
    emit_open(out, Delim::Brace);
    emit_pound_attrs(toks, &f.attrs, out);
    emit_punct(out, '#');
    emit_open(out, Delim::Bracket);
    emit_word(out, "inline");
    emit_open(out, Delim::Paren);
    emit_word(out, "always");
    emit_close(out, Delim::Paren);
    emit_close(out, Delim::Bracket);
    emit_word(out, "pub");
    proof {
        reveal(rmfield_bits_read_1);
    }
    assert(toks_view(out@) =~= b + rmfield_bits_read_1(toks@, mfield_view(*f), mfield_plan_view(*fp), raw@));
}

/// A part of `rmfield_bits_read`.
#[verifier::opaque]
pub open spec fn rmfield_bits_read_2(toks: Seq<Tok>, f: MFieldV, fp: MFieldPlanV, raw: Seq<char>) -> Seq<TokV> {
    tw("fn"@) + tw(fp.ident) + topen(Delim::Paren) + tp('&') + tw("self"@) + tclose(Delim::Paren) + tj('-', '>') + tw(raw) + topen(Delim::Brace) + tw("self"@) + tp('.') + tw("reg"@) + tp('.') + tw(fp.ident) + tp('.') + tw("read"@) + topen(Delim::Paren) + tp('&') + tw("self"@) + tp('.') + tw("val"@) + tclose(Delim::Paren) + tclose(Delim::Brace) + tclose(Delim::Brace)
}

#[verifier::spinoff_prover]
#[verifier::rlimit(80)]
fn emit_rmfield_bits_read_2(toks: &Vec<Tok>, f: &MField, fp: &MFieldPlan, raw: &String, out: &mut Vec<Tok>)
    ensures
        toks_view(final(out)@) == toks_view(old(out)@) + rmfield_bits_read_2(toks@, mfield_view(*f), mfield_plan_view(*fp), raw@),
{
    let ghost b = toks_view(old(out)@);
    emit_word(out, "fn");
    emit_string(out, &fp.ident);
    emit_open(out, Delim::Paren);
    emit_punct(out, '&');
    emit_word(out, "self");
    emit_close(out, Delim::Paren);
    emit_joint(out, '-', '>');
    emit_string(out, raw);
    emit_open(out, Delim::Brace);
    emit_word(out, "self");
    emit_punct(out, '.');
    emit_word(out, "reg");
    emit_punct(out, '.');
    emit_string(out, &fp.ident);
    emit_punct(out, '.');
    emit_word(out, "read");
    emit_open(out, Delim::Paren);
    emit_punct(out, '&');
    emit_word(out, "self");
    emit_punct(out, '.');
    emit_word(out, "val");
    emit_close(out, Delim::Paren);
    emit_close(out, Delim::Brace);
    emit_close(out, Delim::Brace);
    proof {
        reveal(rmfield_bits_read_2);
    }
    assert(toks_view(out@) =~= b + rmfield_bits_read_2(toks@, mfield_view(*f), mfield_plan_view(*fp), raw@));
}

/// The getter of a field of several bits.
#[verifier::opaque]
pub open spec fn rmfield_bits_read(toks: Seq<Tok>, f: MFieldV, fp: MFieldPlanV, raw: Seq<char>) -> Seq<TokV> {
    rmfield_bits_read_1(toks, f, fp, raw) + rmfield_bits_read_2(toks, f, fp, raw)
}

#[verifier::spinoff_prover]
#[verifier::rlimit(80)]
fn emit_rmfield_bits_read(toks: &Vec<Tok>, f: &MField, fp: &MFieldPlan, raw: &String, out: &mut Vec<Tok>)
    ensures
        toks_view(final(out)@) == toks_view(old(out)@) + rmfield_bits_read(toks@, mfield_view(*f), mfield_plan_view(*fp), raw@),
{
    let ghost b = toks_view(old(out)@);
    emit_rmfield_bits_read_1(toks, f, fp, raw, out);
    emit_rmfield_bits_read_2(toks, f, fp, raw, out);
    proof {
        reveal(rmfield_bits_read);
    }
    assert(toks_view(out@) =~= b + rmfield_bits_read(toks@, mfield_view(*f), mfield_plan_view(*fp), raw@));
}

/// A part of `rmfield_bits_write`.
#[verifier::opaque]
pub open spec fn rmfield_bits_write_1(toks: Seq<Tok>, f: MFieldV, fp: MFieldPlanV, raw: Seq<char>) -> Seq<TokV> {
    tw("impl"@) + tp('<') + seq![TokV::Punct('\'', true)] + tw("a"@) + tp(',') + tw("_T"@) + tp(':') + tw("reg"@) + tj(':', ':') + tw("RegTag"@) + tp('>') + tw("self"@) + tj(':', ':') + tw("Hold"@) + tp('<') + seq![TokV::Punct('\'', true)] + tw("a"@) + tp(',') + tw("_T"@) + tp('>') + topen(Delim::Brace) + pound_attrs(toks, f.attrs) + tp('#') + topen(Delim::Bracket) + tw("inline"@) + topen(Delim::Paren) + tw("always"@) + tclose(Delim::Paren) + tclose(Delim::Bracket) + tw("pub"@)
}

#[verifier::spinoff_prover]
#[verifier::rlimit(80)]
fn emit_rmfield_bits_write_1(toks: &Vec<Tok>, f: &MField, fp: &MFieldPlan, raw: &String, out: &mut Vec<Tok>)
    ensures
        toks_view(final(out)@) == toks_view(old(out)@) + rmfield_bits_write_1(toks@, mfield_view(*f), mfield_plan_view(*fp), raw@),
{
    let ghost b = toks_view(old(out)@);
    emit_word(out, "impl");
    emit_punct(out, '<');
    push_tok(out, Tok::Punct('\'', true));
    emit_word(out, "a");
    emit_punct(out, ',');
    emit_word(out, "_T");
    emit_punct(out, ':');
    emit_word(out, "reg");
    emit_joint(out, ':', ':');
    emit_word(out, "RegTag");
    emit_punct(out, '>');
    emit_word(out, "self");
    emit_joint(out, ':', ':');
    emit_word(out, "Hold");
    emit_punct(out, '<');
    push_tok(out, Tok::Punct('\'', true));
    emit_word(out, "a");
    emit_punct(out, ',');
    emit_word(out, "_T");
    emit_punct(out, '>');
    emit_open(out, Delim::Brace);
    emit_pound_attrs(toks, &f.attrs, out);
    emit_punct(out, '#');
    emit_open(out, Delim::Bracket);
    emit_word(out, "inline");
    emit_open(out, Delim::Paren);
    emit_word(out, "always");
    emit_close(out, Delim::Paren);
    emit_close(out, Delim::Bracket);
    emit_word(out, "pub");
    proof {
        reveal(rmfield_bits_write_1);
    }
    assert(toks_view(out@) =~= b + rmfield_bits_write_1(toks@, mfield_view(*f), mfield_plan_view(*fp), raw@));
}

/// A part of `rmfield_bits_write`.
#[verifier::opaque]
pub open spec fn rmfield_bits_write_2(toks: Seq<Tok>, f: MFieldV, fp: MFieldPlanV, raw: Seq<char>) -> Seq<TokV> {
    tw("fn"@) + tw(fp.write_name) + topen(Delim::Paren) + tp('&') + tw("mut"@) + tw("self"@) + tp(',') + tw("bits"@) + tp(':') + tw(raw) + tclose(Delim::Paren) + tj('-', '>') + tp('&') + tw("mut"@) + tw("Self"@) + topen(Delim::Brace) + tw("self"@) + tp('.') + tw("reg"@) + tp('.') + tw(fp.ident) + tp('.') + tw("write"@) + topen(Delim::Paren) + tp('&') + tw("mut"@) + tw("self"@) + tp('.') + tw("val"@) + tp(',')
}

#[verifier::spinoff_prover]
#[verifier::rlimit(80)]
fn emit_rmfield_bits_write_2(toks: &Vec<Tok>, f: &MField, fp: &MFieldPlan, raw: &String, out: &mut Vec<Tok>)
    ensures
        toks_view(final(out)@) == toks_view(old(out)@) + rmfield_bits_write_2(toks@, mfield_view(*f), mfield_plan_view(*fp), raw@),
{
    let ghost b = toks_view(old(out)@);
    emit_word(out, "fn");
    emit_string(out, &fp.write_name);
    emit_open(out, Delim::Paren);
    emit_punct(out, '&');
    emit_word(out, "mut");
    emit_word(out, "self");
    emit_punct(out, ',');
    emit_word(out, "bits");
    emit_punct(out, ':');
    emit_string(out, raw);
    emit_close(out, Delim::Paren);
    emit_joint(out, '-', '>');
    emit_punct(out, '&');
    emit_word(out, "mut");
    emit_word(out, "Self");
    emit_open(out, Delim::Brace);
    emit_word(out, "self");
    emit_punct(out, '.');
    emit_word(out, "reg");
    emit_punct(out, '.');
    emit_string(out, &fp.ident);
    emit_punct(out, '.');
    emit_word(out, "write");
    emit_open(out, Delim::Paren);
    emit_punct(out, '&');
    emit_word(out, "mut");
    emit_word(out, "self");
    emit_punct(out, '.');
    emit_word(out, "val");
    emit_punct(out, ',');
    proof {
        reveal(rmfield_bits_write_2);
    }
    assert(toks_view(out@) =~= b + rmfield_bits_write_2(toks@, mfield_view(*f), mfield_plan_view(*fp), raw@));
}

/// A part of `rmfield_bits_write`.
#[verifier::opaque]
pub open spec fn rmfield_bits_write_3(toks: Seq<Tok>, f: MFieldV, fp: MFieldPlanV, raw: Seq<char>) -> Seq<TokV> {
    tw("bits"@) + tclose(Delim::Paren) + tp(';') + tw("self"@) + tclose(Delim::Brace) + tclose(Delim::Brace)
}

#[verifier::spinoff_prover]
#[verifier::rlimit(80)]
fn emit_rmfield_bits_write_3(toks: &Vec<Tok>, f: &MField, fp: &MFieldPlan, raw: &String, out: &mut Vec<Tok>)
    ensures
        toks_view(final(out)@) == toks_view(old(out)@) + rmfield_bits_write_3(toks@, mfield_view(*f), mfield_plan_view(*fp), raw@),
{
    let ghost b = toks_view(old(out)@);
    emit_word(out, "bits");
    emit_close(out, Delim::Paren);
    emit_punct(out, ';');
    emit_word(out, "self");
    emit_close(out, Delim::Brace);
    emit_close(out, Delim::Brace);
    proof {
        reveal(rmfield_bits_write_3);
    }
    assert(toks_view(out@) =~= b + rmfield_bits_write_3(toks@, mfield_view(*f), mfield_plan_view(*fp), raw@));
}

/// The writer of a field of several bits.
#[verifier::opaque]
pub open spec fn rmfield_bits_write(toks: Seq<Tok>, f: MFieldV, fp: MFieldPlanV, raw: Seq<char>) -> Seq<TokV> {
    rmfield_bits_write_1(toks, f, fp, raw) + rmfield_bits_write_2(toks, f, fp, raw) + rmfield_bits_write_3(toks, f, fp, raw)
}

#[verifier::spinoff_prover]
#[verifier::rlimit(80)]
fn emit_rmfield_bits_write(toks: &Vec<Tok>, f: &MField, fp: &MFieldPlan, raw: &String, out: &mut Vec<Tok>)
    ensures
        toks_view(final(out)@) == toks_view(old(out)@) + rmfield_bits_write(toks@, mfield_view(*f), mfield_plan_view(*fp), raw@),
{
    let ghost b = toks_view(old(out)@);
    emit_rmfield_bits_write_1(toks, f, fp, raw, out);
    emit_rmfield_bits_write_2(toks, f, fp, raw, out);
    emit_rmfield_bits_write_3(toks, f, fp, raw, out);
    proof {
        reveal(rmfield_bits_write);
    }
    assert(toks_view(out@) =~= b + rmfield_bits_write(toks@, mfield_view(*f), mfield_plan_view(*fp), raw@));
}

/// A part of `rmfield_struct`.
#[verifier::opaque]
pub open spec fn rmfield_struct_1(toks: Seq<Tok>, f: MFieldV, fp: MFieldPlanV, raw: Seq<char>) -> Seq<TokV> {
    pound_attrs(toks, f.attrs) + tp('#') + topen(Delim::Bracket) + tw("derive"@) + topen(Delim::Paren) + tw("Clone"@) + tp(',') + tw("Copy"@) + tclose(Delim::Paren) + tclose(Delim::Bracket) + tw("pub"@) + tw("struct"@) + tw(fp.ty) + tp('<') + tw("_T"@) + tp(':') + tw("reg"@) + tj(':', ':') + tw("RegTag"@) + tp('>') + topen(Delim::Brace) + tw("_tag"@) + tp(':') + tw("_T"@) + tp(',') + tclose(Delim::Brace) + tw("impl"@) + tp('<') + tw("_T"@) + tp(':')
}

#[verifier::spinoff_prover]
#[verifier::rlimit(80)]
fn emit_rmfield_struct_1(toks: &Vec<Tok>, f: &MField, fp: &MFieldPlan, raw: &String, out: &mut Vec<Tok>)
    ensures
        toks_view(final(out)@) == toks_view(old(out)@) + rmfield_struct_1(toks@, mfield_view(*f), mfield_plan_view(*fp), raw@),
{
    let ghost b = toks_view(old(out)@);
    emit_pound_attrs(toks, &f.attrs, out);
    emit_punct(out, '#');
    emit_open(out, Delim::Bracket);
    emit_word(out, "derive");
    emit_open(out, Delim::Paren);
    emit_word(out, "Clone");
    emit_punct(out, ',');
    emit_word(out, "Copy");
    emit_close(out, Delim::Paren);
    emit_close(out, Delim::Bracket);
    emit_word(out, "pub");
    emit_word(out, "struct");
    emit_string(out, &fp.ty);
    emit_punct(out, '<');
    emit_word(out, "_T");
    emit_punct(out, ':');
    emit_word(out, "reg");
    emit_joint(out, ':', ':');
    emit_word(out, "RegTag");
    emit_punct(out, '>');
    emit_open(out, Delim::Brace);
    emit_word(out, "_tag");
    emit_punct(out, ':');
    emit_word(out, "_T");
    emit_punct(out, ',');
    emit_close(out, Delim::Brace);
    emit_word(out, "impl");
    emit_punct(out, '<');
    emit_word(out, "_T");
    emit_punct(out, ':');
    proof {
        reveal(rmfield_struct_1);
    }
    assert(toks_view(out@) =~= b + rmfield_struct_1(toks@, mfield_view(*f), mfield_plan_view(*fp), raw@));
}

/// A part of `rmfield_struct`.
#[verifier::opaque]
pub open spec fn rmfield_struct_2(toks: Seq<Tok>, f: MFieldV, fp: MFieldPlanV, raw: Seq<char>) -> Seq<TokV> {
    tw("reg"@) + tj(':', ':') + tw("RegTag"@) + tp('>') + tw("reg"@) + tj(':', ':') + tw("RegField"@) + tp('<') + tw("_T"@) + tp('>') + tw("for"@) + tw("self"@) + tj(':', ':') + tw(fp.ty) + tp('<') + tw("_T"@) + tp('>') + topen(Delim::Brace) + tw("type"@) + tw("Reg"@) + tp('=') + tw("self"@) + tj(':', ':') + tw("Reg"@) + tp('<') + tw("_T"@) + tp('>') + tp(';') + tw("const"@) + tw("OFFSET"@)
}

#[verifier::spinoff_prover]
#[verifier::rlimit(80)]
fn emit_rmfield_struct_2(toks: &Vec<Tok>, f: &MField, fp: &MFieldPlan, raw: &String, out: &mut Vec<Tok>)
    ensures
        toks_view(final(out)@) == toks_view(old(out)@) + rmfield_struct_2(toks@, mfield_view(*f), mfield_plan_view(*fp), raw@),
{
    let ghost b = toks_view(old(out)@);
    emit_word(out, "reg");
    emit_joint(out, ':', ':');
    emit_word(out, "RegTag");
    emit_punct(out, '>');
    emit_word(out, "reg");
    emit_joint(out, ':', ':');
    emit_word(out, "RegField");
    emit_punct(out, '<');
    emit_word(out, "_T");
    emit_punct(out, '>');
    emit_word(out, "for");
    emit_word(out, "self");
    emit_joint(out, ':', ':');
    emit_string(out, &fp.ty);
    emit_punct(out, '<');
    emit_word(out, "_T");
    emit_punct(out, '>');
    emit_open(out, Delim::Brace);
    emit_word(out, "type");
    emit_word(out, "Reg");
    emit_punct(out, '=');
    emit_word(out, "self");
    emit_joint(out, ':', ':');
    emit_word(out, "Reg");
    emit_punct(out, '<');
    emit_word(out, "_T");
    emit_punct(out, '>');
    emit_punct(out, ';');
    emit_word(out, "const");
    emit_word(out, "OFFSET");
    proof {
        reveal(rmfield_struct_2);
    }
    assert(toks_view(out@) =~= b + rmfield_struct_2(toks@, mfield_view(*f), mfield_plan_view(*fp), raw@));
}

/// A part of `rmfield_struct`.
#[verifier::opaque]
pub open spec fn rmfield_struct_3(toks: Seq<Tok>, f: MFieldV, fp: MFieldPlanV, raw: Seq<char>) -> Seq<TokV> {
    tp(':') + tw("usize"@) + tp('=') + tl(decimal(f.offset as nat)) + tp(';') + tw("const"@) + tw("WIDTH"@) + tp(':') + tw("usize"@) + tp('=') + tl(decimal(f.width as nat)) + tp(';') + tclose(Delim::Brace)
}

#[verifier::spinoff_prover]
#[verifier::rlimit(80)]
fn emit_rmfield_struct_3(toks: &Vec<Tok>, f: &MField, fp: &MFieldPlan, raw: &String, out: &mut Vec<Tok>)
    ensures
        toks_view(final(out)@) == toks_view(old(out)@) + rmfield_struct_3(toks@, mfield_view(*f), mfield_plan_view(*fp), raw@),
{
    let ghost b = toks_view(old(out)@);
    emit_punct(out, ':');
    emit_word(out, "usize");
    emit_punct(out, '=');
    emit_decimal(out, f.offset);
    emit_punct(out, ';');
    emit_word(out, "const");
    emit_word(out, "WIDTH");
    emit_punct(out, ':');
    emit_word(out, "usize");
    emit_punct(out, '=');
    emit_decimal(out, f.width);
    emit_punct(out, ';');
    emit_close(out, Delim::Brace);
    proof {
        reveal(rmfield_struct_3);
    }
    assert(toks_view(out@) =~= b + rmfield_struct_3(toks@, mfield_view(*f), mfield_plan_view(*fp), raw@));
}

/// The field's structure and its `RegField`.
#[verifier::opaque]
pub open spec fn rmfield_struct(toks: Seq<Tok>, f: MFieldV, fp: MFieldPlanV, raw: Seq<char>) -> Seq<TokV> {
    rmfield_struct_1(toks, f, fp, raw) + rmfield_struct_2(toks, f, fp, raw) + rmfield_struct_3(toks, f, fp, raw)
}

#[verifier::spinoff_prover]
#[verifier::rlimit(80)]
fn emit_rmfield_struct(toks: &Vec<Tok>, f: &MField, fp: &MFieldPlan, raw: &String, out: &mut Vec<Tok>)
    ensures
        toks_view(final(out)@) == toks_view(old(out)@) + rmfield_struct(toks@, mfield_view(*f), mfield_plan_view(*fp), raw@),
{
    let ghost b = toks_view(old(out)@);
    emit_rmfield_struct_1(toks, f, fp, raw, out);
    emit_rmfield_struct_2(toks, f, fp, raw, out);
    emit_rmfield_struct_3(toks, f, fp, raw, out);
    proof {
        reveal(rmfield_struct);
    }
    assert(toks_view(out@) =~= b + rmfield_struct(toks@, mfield_view(*f), mfield_plan_view(*fp), raw@));
}

/// `ATTRS impl<T: reg::RegTag> reg::TRAIT<T> for self::FTY<T> {}`
#[verifier::opaque]
pub open spec fn rmfield_trait(toks: Seq<Tok>, f: MFieldV, fp: MFieldPlanV, raw: Seq<char>, ta: Seq<Span>, tr: usize) -> Seq<TokV> {
    pound_attrs(toks, ta) + tw("impl"@) + tp('<') + tw("_T"@) + tp('>') + tw("reg"@) + tj(':', ':') + span_toks(toks, one(tr)) + tp('<') + tw("_T"@) + tp('>') + tw("for"@) + tw("self"@) + tj(':', ':') + tw(fp.ty) + tp('<') + tw("_T"@) + tp('>') + tw("where"@) + tw("_T"@) + tp(':') + tw("reg"@) + tj(':', ':') + tw("RegTag"@) + tp(',') + topen(Delim::Brace) + tclose(Delim::Brace)
}

#[verifier::spinoff_prover]
#[verifier::rlimit(80)]
fn emit_rmfield_trait(toks: &Vec<Tok>, f: &MField, fp: &MFieldPlan, raw: &String, ta: &Vec<Span>, tr: usize, out: &mut Vec<Tok>)
    ensures
        toks_view(final(out)@) == toks_view(old(out)@) + rmfield_trait(toks@, mfield_view(*f), mfield_plan_view(*fp), raw@, ta@, tr),
{
    let ghost b = toks_view(old(out)@);
    emit_pound_attrs(toks, ta, out);
    emit_word(out, "impl");
    emit_punct(out, '<');
    emit_word(out, "_T");
    emit_punct(out, '>');
    emit_word(out, "reg");
    emit_joint(out, ':', ':');
    emit_span(toks, one_exec(tr), out);
    emit_punct(out, '<');
    emit_word(out, "_T");
    emit_punct(out, '>');
    emit_word(out, "for");
    emit_word(out, "self");
    emit_joint(out, ':', ':');
    emit_string(out, &fp.ty);
    emit_punct(out, '<');
    emit_word(out, "_T");
    emit_punct(out, '>');
    emit_word(out, "where");
    emit_word(out, "_T");
    emit_punct(out, ':');
    emit_word(out, "reg");
    emit_joint(out, ':', ':');
    emit_word(out, "RegTag");
    emit_punct(out, ',');
    emit_open(out, Delim::Brace);
    emit_close(out, Delim::Brace);
    proof {
        reveal(rmfield_trait);
    }
    assert(toks_view(out@) =~= b + rmfield_trait(toks@, mfield_view(*f), mfield_plan_view(*fp), raw@, ta@, tr));
}

/// `impl<T: reg::RegTag> reg::RegFieldBit<T> for self::FTY<T> {}`, or `RegFieldBits` for a field of several bits.
#[verifier::opaque]
pub open spec fn rmfield_width_trait(toks: Seq<Tok>, f: MFieldV, fp: MFieldPlanV, raw: Seq<char>) -> Seq<TokV> {
    tw("impl"@) + tp('<') + tw("_T"@) + tp('>') + tw("reg"@) + tj(':', ':') + (if f.width == 1 { tw("RegFieldBit"@) } else { tw("RegFieldBits"@) }) + tp('<') + tw("_T"@) + tp('>') + tw("for"@) + tw("self"@) + tj(':', ':') + tw(fp.ty) + tp('<') + tw("_T"@) + tp('>') + tw("where"@) + tw("_T"@) + tp(':') + tw("reg"@) + tj(':', ':') + tw("RegTag"@) + tp(',') + topen(Delim::Brace) + tclose(Delim::Brace)
}

#[verifier::spinoff_prover]
#[verifier::rlimit(80)]
fn emit_rmfield_width_trait(toks: &Vec<Tok>, f: &MField, fp: &MFieldPlan, raw: &String, out: &mut Vec<Tok>)
    ensures
        toks_view(final(out)@) == toks_view(old(out)@) + rmfield_width_trait(toks@, mfield_view(*f), mfield_plan_view(*fp), raw@),
{
    let ghost b = toks_view(old(out)@);
    emit_word(out, "impl");
    emit_punct(out, '<');
    emit_word(out, "_T");
    emit_punct(out, '>');
    emit_word(out, "reg");
    emit_joint(out, ':', ':');
    if f.width == 1 { emit_word(out, "RegFieldBit"); } else { emit_word(out, "RegFieldBits"); }
    emit_punct(out, '<');
    emit_word(out, "_T");
    emit_punct(out, '>');
    emit_word(out, "for");
    emit_word(out, "self");
    emit_joint(out, ':', ':');
    emit_string(out, &fp.ty);
    emit_punct(out, '<');
    emit_word(out, "_T");
    emit_punct(out, '>');
    emit_word(out, "where");
    emit_word(out, "_T");
    emit_punct(out, ':');
    emit_word(out, "reg");
    emit_joint(out, ':', ':');
    emit_word(out, "RegTag");
    emit_punct(out, ',');
    emit_open(out, Delim::Brace);
    emit_close(out, Delim::Brace);
    proof {
        reveal(rmfield_width_trait);
    }
    assert(toks_view(out@) =~= b + rmfield_width_trait(toks@, mfield_view(*f), mfield_plan_view(*fp), raw@));
}

/// A part of `rmfield_tags`.
#[verifier::opaque]
pub open spec fn rmfield_tags_1(toks: Seq<Tok>, f: MFieldV, fp: MFieldPlanV, raw: Seq<char>) -> Seq<TokV> {
    tw("impl"@) + tw("From"@) + tp('<') + tw("self"@) + tj(':', ':') + tw(fp.ty) + tp('<') + tw("reg"@) + tj(':', ':') + tw("Srt"@) + tp('>') + tp('>') + tw("for"@) + tw("self"@) + tj(':', ':') + tw(fp.ty) + tp('<') + tw("reg"@) + tj(':', ':') + tw("Frt"@) + tp('>') + topen(Delim::Brace) + tp('#') + topen(Delim::Bracket) + tw("inline"@) + topen(Delim::Paren) + tw("always"@) + tclose(Delim::Paren) + tclose(Delim::Bracket) + tw("fn"@) + tw("from"@) + topen(Delim::Paren) + tw("_field"@) + tp(':') + tw("self"@) + tj(':', ':') + tw(fp.ty) + tp('<') + tw("reg"@) + tj(':', ':')
}

#[verifier::spinoff_prover]
#[verifier::rlimit(80)]
fn emit_rmfield_tags_1(toks: &Vec<Tok>, f: &MField, fp: &MFieldPlan, raw: &String, out: &mut Vec<Tok>)
    ensures
        toks_view(final(out)@) == toks_view(old(out)@) + rmfield_tags_1(toks@, mfield_view(*f), mfield_plan_view(*fp), raw@),
{
    let ghost b = toks_view(old(out)@);
    emit_word(out, "impl");
    emit_word(out, "From");
    emit_punct(out, '<');
    emit_word(out, "self");
    emit_joint(out, ':', ':');
    emit_string(out, &fp.ty);
    emit_punct(out, '<');
    emit_word(out, "reg");
    emit_joint(out, ':', ':');
    emit_word(out, "Srt");
    emit_punct(out, '>');
    emit_punct(out, '>');
    emit_word(out, "for");
    emit_word(out, "self");
    emit_joint(out, ':', ':');
    emit_string(out, &fp.ty);
    emit_punct(out, '<');
    emit_word(out, "reg");
    emit_joint(out, ':', ':');
    emit_word(out, "Frt");
    emit_punct(out, '>');
    emit_open(out, Delim::Brace);
    emit_punct(out, '#');
    emit_open(out, Delim::Bracket);
    emit_word(out, "inline");
    emit_open(out, Delim::Paren);
    emit_word(out, "always");
    emit_close(out, Delim::Paren);
    emit_close(out, Delim::Bracket);
    emit_word(out, "fn");
    emit_word(out, "from");
    emit_open(out, Delim::Paren);
    emit_word(out, "_field");
    emit_punct(out, ':');
    emit_word(out, "self");
    emit_joint(out, ':', ':');
    emit_string(out, &fp.ty);
    emit_punct(out, '<');
    emit_word(out, "reg");
    emit_joint(out, ':', ':');
    proof {
        reveal(rmfield_tags_1);
    }
    assert(toks_view(out@) =~= b + rmfield_tags_1(toks@, mfield_view(*f), mfield_plan_view(*fp), raw@));
}

/// A part of `rmfield_tags`.
#[verifier::opaque]
pub open spec fn rmfield_tags_2(toks: Seq<Tok>, f: MFieldV, fp: MFieldPlanV, raw: Seq<char>) -> Seq<TokV> {
    tw("Srt"@) + tp('>') + tclose(Delim::Paren) + tj('-', '>') + tw("Self"@) + topen(Delim::Brace) + tw("Self"@) + topen(Delim::Brace) + tw("_tag"@) + tp(':') + tw("reg"@) + tj(':', ':') + tw("Frt"@) + tj(':', ':') + tw("default"@) + topen(Delim::Paren) + tclose(Delim::Paren) + tclose(Delim::Brace) + tclose(Delim::Brace) + tclose(Delim::Brace) + tw("impl"@) + tw("From"@) + tp('<') + tw("self"@) + tj(':', ':') + tw(fp.ty) + tp('<') + tw("reg"@) + tj(':', ':') + tw("Srt"@) + tp('>') + tp('>') + tw("for"@) + tw("self"@) + tj(':', ':') + tw(fp.ty) + tp('<') + tw("reg"@) + tj(':', ':') + tw("Crt"@)
}

#[verifier::spinoff_prover]
#[verifier::rlimit(80)]
fn emit_rmfield_tags_2(toks: &Vec<Tok>, f: &MField, fp: &MFieldPlan, raw: &String, out: &mut Vec<Tok>)
    ensures
        toks_view(final(out)@) == toks_view(old(out)@) + rmfield_tags_2(toks@, mfield_view(*f), mfield_plan_view(*fp), raw@),
{
    let ghost b = toks_view(old(out)@);
    emit_word(out, "Srt");
    emit_punct(out, '>');
    emit_close(out, Delim::Paren);
    emit_joint(out, '-', '>');
    emit_word(out, "Self");
    emit_open(out, Delim::Brace);
    emit_word(out, "Self");
    emit_open(out, Delim::Brace);
    emit_word(out, "_tag");
    emit_punct(out, ':');
    emit_word(out, "reg");
    emit_joint(out, ':', ':');
    emit_word(out, "Frt");
    emit_joint(out, ':', ':');
    emit_word(out, "default");
    emit_open(out, Delim::Paren);
    emit_close(out, Delim::Paren);
    emit_close(out, Delim::Brace);
    emit_close(out, Delim::Brace);
    emit_close(out, Delim::Brace);
    emit_word(out, "impl");
    emit_word(out, "From");
    emit_punct(out, '<');
    emit_word(out, "self");
    emit_joint(out, ':', ':');
    emit_string(out, &fp.ty);
    emit_punct(out, '<');
    emit_word(out, "reg");
    emit_joint(out, ':', ':');
    emit_word(out, "Srt");
    emit_punct(out, '>');
    emit_punct(out, '>');
    emit_word(out, "for");
    emit_word(out, "self");
    emit_joint(out, ':', ':');
    emit_string(out, &fp.ty);
    emit_punct(out, '<');
    emit_word(out, "reg");
    emit_joint(out, ':', ':');
    emit_word(out, "Crt");
    proof {
        reveal(rmfield_tags_2);
    }
    assert(toks_view(out@) =~= b + rmfield_tags_2(toks@, mfield_view(*f), mfield_plan_view(*fp), raw@));
}

/// A part of `rmfield_tags`.
#[verifier::opaque]
pub open spec fn rmfield_tags_3(toks: Seq<Tok>, f: MFieldV, fp: MFieldPlanV, raw: Seq<char>) -> Seq<TokV> {
    tp('>') + topen(Delim::Brace) + tp('#') + topen(Delim::Bracket) + tw("inline"@) + topen(Delim::Paren) + tw("always"@) + tclose(Delim::Paren) + tclose(Delim::Bracket) + tw("fn"@) + tw("from"@) + topen(Delim::Paren) + tw("_field"@) + tp(':') + tw("self"@) + tj(':', ':') + tw(fp.ty) + tp('<') + tw("reg"@) + tj(':', ':') + tw("Srt"@) + tp('>') + tclose(Delim::Paren) + tj('-', '>') + tw("Self"@) + topen(Delim::Brace) + tw("Self"@) + topen(Delim::Brace) + tw("_tag"@) + tp(':') + tw("reg"@) + tj(':', ':') + tw("Crt"@) + tj(':', ':') + tw("default"@) + topen(Delim::Paren) + tclose(Delim::Paren) + tclose(Delim::Brace) + tclose(Delim::Brace) + tclose(Delim::Brace)
}

#[verifier::spinoff_prover]
#[verifier::rlimit(80)]
fn emit_rmfield_tags_3(toks: &Vec<Tok>, f: &MField, fp: &MFieldPlan, raw: &String, out: &mut Vec<Tok>)
    ensures
        toks_view(final(out)@) == toks_view(old(out)@) + rmfield_tags_3(toks@, mfield_view(*f), mfield_plan_view(*fp), raw@),
{
    let ghost b = toks_view(old(out)@);
    emit_punct(out, '>');
    emit_open(out, Delim::Brace);
    emit_punct(out, '#');
    emit_open(out, Delim::Bracket);
    emit_word(out, "inline");
    emit_open(out, Delim::Paren);
    emit_word(out, "always");
    emit_close(out, Delim::Paren);
    emit_close(out, Delim::Bracket);
    emit_word(out, "fn");
    emit_word(out, "from");
    emit_open(out, Delim::Paren);
    emit_word(out, "_field");
    emit_punct(out, ':');
    emit_word(out, "self");
    emit_joint(out, ':', ':');
    emit_string(out, &fp.ty);
    emit_punct(out, '<');
    emit_word(out, "reg");
    emit_joint(out, ':', ':');
    emit_word(out, "Srt");
    emit_punct(out, '>');
    emit_close(out, Delim::Paren);
    emit_joint(out, '-', '>');
    emit_word(out, "Self");
    emit_open(out, Delim::Brace);
    emit_word(out, "Self");
    emit_open(out, Delim::Brace);
    emit_word(out, "_tag");
    emit_punct(out, ':');
    emit_word(out, "reg");
    emit_joint(out, ':', ':');
    emit_word(out, "Crt");
    emit_joint(out, ':', ':');
    emit_word(out, "default");
    emit_open(out, Delim::Paren);
    emit_close(out, Delim::Paren);
    emit_close(out, Delim::Brace);
    emit_close(out, Delim::Brace);
    emit_close(out, Delim::Brace);
    proof {
        reveal(rmfield_tags_3);
    }
    assert(toks_view(out@) =~= b + rmfield_tags_3(toks@, mfield_view(*f), mfield_plan_view(*fp), raw@));
}

/// A part of `rmfield_tags`.
#[verifier::opaque]
pub open spec fn rmfield_tags_4(toks: Seq<Tok>, f: MFieldV, fp: MFieldPlanV, raw: Seq<char>) -> Seq<TokV> {
    tw("impl"@) + tw("From"@) + tp('<') + tw("self"@) + tj(':', ':') + tw(fp.ty) + tp('<') + tw("reg"@) + tj(':', ':') + tw("Frt"@) + tp('>') + tp('>') + tw("for"@) + tw("self"@) + tj(':', ':') + tw(fp.ty) + tp('<') + tw("reg"@) + tj(':', ':') + tw("Crt"@) + tp('>') + topen(Delim::Brace) + tp('#') + topen(Delim::Bracket) + tw("inline"@) + topen(Delim::Paren) + tw("always"@) + tclose(Delim::Paren) + tclose(Delim::Bracket) + tw("fn"@) + tw("from"@) + topen(Delim::Paren) + tw("_field"@) + tp(':') + tw("self"@) + tj(':', ':') + tw(fp.ty) + tp('<') + tw("reg"@) + tj(':', ':')
}

#[verifier::spinoff_prover]
#[verifier::rlimit(80)]
fn emit_rmfield_tags_4(toks: &Vec<Tok>, f: &MField, fp: &MFieldPlan, raw: &String, out: &mut Vec<Tok>)
    ensures
        toks_view(final(out)@) == toks_view(old(out)@) + rmfield_tags_4(toks@, mfield_view(*f), mfield_plan_view(*fp), raw@),
{
    let ghost b = toks_view(old(out)@);
    emit_word(out, "impl");
    emit_word(out, "From");
    emit_punct(out, '<');
    emit_word(out, "self");
    emit_joint(out, ':', ':');
    emit_string(out, &fp.ty);
    emit_punct(out, '<');
    emit_word(out, "reg");
    emit_joint(out, ':', ':');
    emit_word(out, "Frt");
    emit_punct(out, '>');
    emit_punct(out, '>');
    emit_word(out, "for");
    emit_word(out, "self");
    emit_joint(out, ':', ':');
    emit_string(out, &fp.ty);
    emit_punct(out, '<');
    emit_word(out, "reg");
    emit_joint(out, ':', ':');
    emit_word(out, "Crt");
    emit_punct(out, '>');
    emit_open(out, Delim::Brace);
    emit_punct(out, '#');
    emit_open(out, Delim::Bracket);
    emit_word(out, "inline");
    emit_open(out, Delim::Paren);
    emit_word(out, "always");
    emit_close(out, Delim::Paren);
    emit_close(out, Delim::Bracket);
    emit_word(out, "fn");
    emit_word(out, "from");
    emit_open(out, Delim::Paren);
    emit_word(out, "_field");
    emit_punct(out, ':');
    emit_word(out, "self");
    emit_joint(out, ':', ':');
    emit_string(out, &fp.ty);
    emit_punct(out, '<');
    emit_word(out, "reg");
    emit_joint(out, ':', ':');
    proof {
        reveal(rmfield_tags_4);
    }
    assert(toks_view(out@) =~= b + rmfield_tags_4(toks@, mfield_view(*f), mfield_plan_view(*fp), raw@));
}

/// A part of `rmfield_tags`.
#[verifier::opaque]
pub open spec fn rmfield_tags_5(toks: Seq<Tok>, f: MFieldV, fp: MFieldPlanV, raw: Seq<char>) -> Seq<TokV> {
    tw("Frt"@) + tp('>') + tclose(Delim::Paren) + tj('-', '>') + tw("Self"@) + topen(Delim::Brace) + tw("Self"@) + topen(Delim::Brace) + tw("_tag"@) + tp(':') + tw("reg"@) + tj(':', ':') + tw("Crt"@) + tj(':', ':') + tw("default"@) + topen(Delim::Paren) + tclose(Delim::Paren) + tclose(Delim::Brace) + tclose(Delim::Brace) + tclose(Delim::Brace) + tw("impl"@) + tw("reg"@) + tj(':', ':') + tw("RegFork"@) + tw("for"@) + tw("self"@) + tj(':', ':') + tw(fp.ty) + tp('<') + tw("reg"@) + tj(':', ':') + tw("Frt"@) + tp('>') + topen(Delim::Brace) + tp('#') + topen(Delim::Bracket) + tw("inline"@) + topen(Delim::Paren) + tw("always"@) + tclose(Delim::Paren)
}

#[verifier::spinoff_prover]
#[verifier::rlimit(80)]
fn emit_rmfield_tags_5(toks: &Vec<Tok>, f: &MField, fp: &MFieldPlan, raw: &String, out: &mut Vec<Tok>)
    ensures
        toks_view(final(out)@) == toks_view(old(out)@) + rmfield_tags_5(toks@, mfield_view(*f), mfield_plan_view(*fp), raw@),
{
    let ghost b = toks_view(old(out)@);
    emit_word(out, "Frt");
    emit_punct(out, '>');
    emit_close(out, Delim::Paren);
    emit_joint(out, '-', '>');
    emit_word(out, "Self");
    emit_open(out, Delim::Brace);
    emit_word(out, "Self");
    emit_open(out, Delim::Brace);
    emit_word(out, "_tag");
    emit_punct(out, ':');
    emit_word(out, "reg");
    emit_joint(out, ':', ':');
    emit_word(out, "Crt");
    emit_joint(out, ':', ':');
    emit_word(out, "default");
    emit_open(out, Delim::Paren);
    emit_close(out, Delim::Paren);
    emit_close(out, Delim::Brace);
    emit_close(out, Delim::Brace);
    emit_close(out, Delim::Brace);
    emit_word(out, "impl");
    emit_word(out, "reg");
    emit_joint(out, ':', ':');
    emit_word(out, "RegFork");
    emit_word(out, "for");
    emit_word(out, "self");
    emit_joint(out, ':', ':');
    emit_string(out, &fp.ty);
    emit_punct(out, '<');
    emit_word(out, "reg");
    emit_joint(out, ':', ':');
    emit_word(out, "Frt");
    emit_punct(out, '>');
    emit_open(out, Delim::Brace);
    emit_punct(out, '#');
    emit_open(out, Delim::Bracket);
    emit_word(out, "inline");
    emit_open(out, Delim::Paren);
    emit_word(out, "always");
    emit_close(out, Delim::Paren);
    proof {
        reveal(rmfield_tags_5);
    }
    assert(toks_view(out@) =~= b + rmfield_tags_5(toks@, mfield_view(*f), mfield_plan_view(*fp), raw@));
}

/// A part of `rmfield_tags`.
#[verifier::opaque]
pub open spec fn rmfield_tags_6(toks: Seq<Tok>, f: MFieldV, fp: MFieldPlanV, raw: Seq<char>) -> Seq<TokV> {
    tclose(Delim::Bracket) + tw("fn"@) + tw("fork"@) + topen(Delim::Paren) + tp('&') + tw("mut"@) + tw("self"@) + tclose(Delim::Paren) + tj('-', '>') + tw("Self"@) + topen(Delim::Brace) + tw("Self"@) + topen(Delim::Brace) + tw("_tag"@) + tp(':') + tw("reg"@) + tj(':', ':') + tw("Frt"@) + tj(':', ':') + tw("default"@) + topen(Delim::Paren) + tclose(Delim::Paren) + tclose(Delim::Brace) + tclose(Delim::Brace) + tclose(Delim::Brace)
}

#[verifier::spinoff_prover]
#[verifier::rlimit(80)]
fn emit_rmfield_tags_6(toks: &Vec<Tok>, f: &MField, fp: &MFieldPlan, raw: &String, out: &mut Vec<Tok>)
    ensures
        toks_view(final(out)@) == toks_view(old(out)@) + rmfield_tags_6(toks@, mfield_view(*f), mfield_plan_view(*fp), raw@),
{
    let ghost b = toks_view(old(out)@);
    emit_close(out, Delim::Bracket);
    emit_word(out, "fn");
    emit_word(out, "fork");
    emit_open(out, Delim::Paren);
    emit_punct(out, '&');
    emit_word(out, "mut");
    emit_word(out, "self");
    emit_close(out, Delim::Paren);
    emit_joint(out, '-', '>');
    emit_word(out, "Self");
    emit_open(out, Delim::Brace);
    emit_word(out, "Self");
    emit_open(out, Delim::Brace);
    emit_word(out, "_tag");
    emit_punct(out, ':');
    emit_word(out, "reg");
    emit_joint(out, ':', ':');
    emit_word(out, "Frt");
    emit_joint(out, ':', ':');
    emit_word(out, "default");
    emit_open(out, Delim::Paren);
    emit_close(out, Delim::Paren);
    emit_close(out, Delim::Brace);
    emit_close(out, Delim::Brace);
    emit_close(out, Delim::Brace);
    proof {
        reveal(rmfield_tags_6);
    }
    assert(toks_view(out@) =~= b + rmfield_tags_6(toks@, mfield_view(*f), mfield_plan_view(*fp), raw@));
}

/// The conversions of the field's token between its tags, and its `RegFork`.
#[verifier::opaque]
pub open spec fn rmfield_tags(toks: Seq<Tok>, f: MFieldV, fp: MFieldPlanV, raw: Seq<char>) -> Seq<TokV> {
    rmfield_tags_1(toks, f, fp, raw) + rmfield_tags_2(toks, f, fp, raw) + rmfield_tags_3(toks, f, fp, raw) + rmfield_tags_4(toks, f, fp, raw) + rmfield_tags_5(toks, f, fp, raw) + rmfield_tags_6(toks, f, fp, raw)
}

#[verifier::spinoff_prover]
#[verifier::rlimit(80)]
fn emit_rmfield_tags(toks: &Vec<Tok>, f: &MField, fp: &MFieldPlan, raw: &String, out: &mut Vec<Tok>)
    ensures
        toks_view(final(out)@) == toks_view(old(out)@) + rmfield_tags(toks@, mfield_view(*f), mfield_plan_view(*fp), raw@),
{
    let ghost b = toks_view(old(out)@);
    emit_rmfield_tags_1(toks, f, fp, raw, out);
    emit_rmfield_tags_2(toks, f, fp, raw, out);
    emit_rmfield_tags_3(toks, f, fp, raw, out);
    emit_rmfield_tags_4(toks, f, fp, raw, out);
    emit_rmfield_tags_5(toks, f, fp, raw, out);
    emit_rmfield_tags_6(toks, f, fp, raw, out);
    proof {
        reveal(rmfield_tags);
    }
    assert(toks_view(out@) =~= b + rmfield_tags(toks@, mfield_view(*f), mfield_plan_view(*fp), raw@));
}

/// `pub use self::MOD::Reg as TY; ATTRS pub mod MOD { use ::drone::reg;`
#[verifier::opaque]
pub open spec fn rmreg_head(toks: Seq<Tok>, g: MRegV, gp: MRegPlanV) -> Seq<TokV> {
    tw("pub"@) + tw("use"@) + tw("self"@) + tj(':', ':') + tw(gp.module) + tj(':', ':') + tw("Reg"@) + tw("as"@) + tw(gp.ty) + tp(';') + pound_attrs(toks, g.attrs) + tw("pub"@) + tw("mod"@) + tw(gp.module) + topen(Delim::Brace) + tw("use"@) + tj(':', ':') + tw("drone_core"@) + tj(':', ':') + tw("reg"@) + tp(';')
}

#[verifier::spinoff_prover]
#[verifier::rlimit(80)]
fn emit_rmreg_head(toks: &Vec<Tok>, g: &MReg, gp: &MRegPlan, out: &mut Vec<Tok>)
    ensures
        toks_view(final(out)@) == toks_view(old(out)@) + rmreg_head(toks@, mreg_view(*g), mreg_plan_view(*gp)),
{
    let ghost b = toks_view(old(out)@);
    emit_word(out, "pub");
    emit_word(out, "use");
    emit_word(out, "self");
    emit_joint(out, ':', ':');
    emit_string(out, &gp.module);
    emit_joint(out, ':', ':');
    emit_word(out, "Reg");
    emit_word(out, "as");
    emit_string(out, &gp.ty);
    emit_punct(out, ';');
    emit_pound_attrs(toks, &g.attrs, out);
    emit_word(out, "pub");
    emit_word(out, "mod");
    emit_string(out, &gp.module);
    emit_open(out, Delim::Brace);
    emit_word(out, "use");
    emit_joint(out, ':', ':');
    emit_word(out, "drone_core");
    emit_joint(out, ':', ':');
    emit_word(out, "reg");
    emit_punct(out, ';');
    proof {
        reveal(rmreg_head);
    }
    assert(toks_view(out@) =~= b + rmreg_head(toks@, mreg_view(*g), mreg_plan_view(*gp)));
}

/// `ATTRS #[derive(Clone, Copy)] pub struct Reg<_T: reg::RegTag> {`
#[verifier::opaque]
pub open spec fn rmreg_struct_head(toks: Seq<Tok>, g: MRegV, gp: MRegPlanV) -> Seq<TokV> {
    pound_attrs(toks, g.attrs) + tp('#') + topen(Delim::Bracket) + tw("derive"@) + topen(Delim::Paren) + tw("Clone"@) + tp(',') + tw("Copy"@) + tclose(Delim::Paren) + tclose(Delim::Bracket) + tw("pub"@) + tw("struct"@) + tw("Reg"@) + tp('<') + tw("_T"@) + tp(':') + tw("reg"@) + tj(':', ':') + tw("RegTag"@) + tp('>') + topen(Delim::Brace)
}

#[verifier::spinoff_prover]
#[verifier::rlimit(80)]
fn emit_rmreg_struct_head(toks: &Vec<Tok>, g: &MReg, gp: &MRegPlan, out: &mut Vec<Tok>)
    ensures
        toks_view(final(out)@) == toks_view(old(out)@) + rmreg_struct_head(toks@, mreg_view(*g), mreg_plan_view(*gp)),
{
    let ghost b = toks_view(old(out)@);
    emit_pound_attrs(toks, &g.attrs, out);
    emit_punct(out, '#');
    emit_open(out, Delim::Bracket);
    emit_word(out, "derive");
    emit_open(out, Delim::Paren);
    emit_word(out, "Clone");
    emit_punct(out, ',');
    emit_word(out, "Copy");
    emit_close(out, Delim::Paren);
    emit_close(out, Delim::Bracket);
    emit_word(out, "pub");
    emit_word(out, "struct");
    emit_word(out, "Reg");
    emit_punct(out, '<');
    emit_word(out, "_T");
    emit_punct(out, ':');
    emit_word(out, "reg");
    emit_joint(out, ':', ':');
    emit_word(out, "RegTag");
    emit_punct(out, '>');
    emit_open(out, Delim::Brace);
    proof {
        reveal(rmreg_struct_head);
    }
    assert(toks_view(out@) =~= b + rmreg_struct_head(toks@, mreg_view(*g), mreg_plan_view(*gp)));
}

/// A part of `rmreg_impls`.
#[verifier::opaque]
pub open spec fn rmreg_impls_1(toks: Seq<Tok>, g: MRegV, gp: MRegPlanV) -> Seq<TokV> {
    tclose(Delim::Brace) + tw("impl"@) + tp('<') + tw("_T"@) + tp(':') + tw("reg"@) + tj(':', ':') + tw("RegTag"@) + tp('>') + tw("self"@) + tj(':', ':') + tw("Reg"@) + tp('<') + tw("_T"@) + tp('>') + topen(Delim::Brace) + tp('#') + topen(Delim::Bracket) + tw("inline"@) + topen(Delim::Paren) + tw("always"@) + tclose(Delim::Paren) + tclose(Delim::Bracket) + tw("pub"@) + topen(Delim::Paren) + tw("crate"@) + tclose(Delim::Paren) + tw("unsafe"@) + tw("fn"@) + tw("new"@)
}

#[verifier::spinoff_prover]
#[verifier::rlimit(80)]
fn emit_rmreg_impls_1(toks: &Vec<Tok>, g: &MReg, gp: &MRegPlan, out: &mut Vec<Tok>)
    ensures
        toks_view(final(out)@) == toks_view(old(out)@) + rmreg_impls_1(toks@, mreg_view(*g), mreg_plan_view(*gp)),
{
    let ghost b = toks_view(old(out)@);
    emit_close(out, Delim::Brace);
    emit_word(out, "impl");
    emit_punct(out, '<');
    emit_word(out, "_T");
    emit_punct(out, ':');
    emit_word(out, "reg");
    emit_joint(out, ':', ':');
    emit_word(out, "RegTag");
    emit_punct(out, '>');
    emit_word(out, "self");
    emit_joint(out, ':', ':');
    emit_word(out, "Reg");
    emit_punct(out, '<');
    emit_word(out, "_T");
    emit_punct(out, '>');
    emit_open(out, Delim::Brace);
    emit_punct(out, '#');
    emit_open(out, Delim::Bracket);
    emit_word(out, "inline");
    emit_open(out, Delim::Paren);
    emit_word(out, "always");
    emit_close(out, Delim::Paren);
    emit_close(out, Delim::Bracket);
    emit_word(out, "pub");
    emit_open(out, Delim::Paren);
    emit_word(out, "crate");
    emit_close(out, Delim::Paren);
    emit_word(out, "unsafe");
    emit_word(out, "fn");
    emit_word(out, "new");
    proof {
        reveal(rmreg_impls_1);
    }
    assert(toks_view(out@) =~= b + rmreg_impls_1(toks@, mreg_view(*g), mreg_plan_view(*gp)));
}

/// A part of `rmreg_impls`.
#[verifier::opaque]
pub open spec fn rmreg_impls_2(toks: Seq<Tok>, g: MRegV, gp: MRegPlanV) -> Seq<TokV> {
    topen(Delim::Paren) + tclose(Delim::Paren) + tj('-', '>') + tw("Self"@) + topen(Delim::Brace) + tw("Self"@) + topen(Delim::Brace) + new_list(gp.fields) + tclose(Delim::Brace) + tclose(Delim::Brace) + tclose(Delim::Brace) + tw("impl"@) + tp('<') + tw("_T"@) + tp(':') + tw("reg"@) + tj(':', ':') + tw("RegTag"@) + tp('>') + tw("reg"@) + tj(':', ':') + tw("Reg"@) + tp('<') + tw("_T"@) + tp('>') + tw("for"@) + tw("self"@) + tj(':', ':') + tw("Reg"@) + tp('<')
}

#[verifier::spinoff_prover]
#[verifier::rlimit(80)]
fn emit_rmreg_impls_2(toks: &Vec<Tok>, g: &MReg, gp: &MRegPlan, out: &mut Vec<Tok>)
    ensures
        toks_view(final(out)@) == toks_view(old(out)@) + rmreg_impls_2(toks@, mreg_view(*g), mreg_plan_view(*gp)),
{
    let ghost b = toks_view(old(out)@);
    emit_open(out, Delim::Paren);
    emit_close(out, Delim::Paren);
    emit_joint(out, '-', '>');
    emit_word(out, "Self");
    emit_open(out, Delim::Brace);
    emit_word(out, "Self");
    emit_open(out, Delim::Brace);
    emit_new_list(&gp.fields, out);
    emit_close(out, Delim::Brace);
    emit_close(out, Delim::Brace);
    emit_close(out, Delim::Brace);
    emit_word(out, "impl");
    emit_punct(out, '<');
    emit_word(out, "_T");
    emit_punct(out, ':');
    emit_word(out, "reg");
    emit_joint(out, ':', ':');
    emit_word(out, "RegTag");
    emit_punct(out, '>');
    emit_word(out, "reg");
    emit_joint(out, ':', ':');
    emit_word(out, "Reg");
    emit_punct(out, '<');
    emit_word(out, "_T");
    emit_punct(out, '>');
    emit_word(out, "for");
    emit_word(out, "self");
    emit_joint(out, ':', ':');
    emit_word(out, "Reg");
    emit_punct(out, '<');
    proof {
        reveal(rmreg_impls_2);
    }
    assert(toks_view(out@) =~= b + rmreg_impls_2(toks@, mreg_view(*g), mreg_plan_view(*gp)));
}

/// A part of `rmreg_impls`.
#[verifier::opaque]
pub open spec fn rmreg_impls_3(toks: Seq<Tok>, g: MRegV, gp: MRegPlanV) -> Seq<TokV> {
    tw("_T"@) + tp('>') + topen(Delim::Brace) + tw("type"@) + tw("Val"@) + tp('=') + tw("self"@) + tj(':', ':') + tw("Val"@) + tp(';') + tw("const"@) + tw("ADDRESS"@) + tp(':') + tw("usize"@) + tp('=') + tl(decimal(g.address as nat)) + tp(';') + tclose(Delim::Brace) + tw("impl"@) + tp('<') + seq![TokV::Punct('\'', true)] + tw("a"@) + tp(',') + tw("_T"@) + tp(':') + tw("reg"@) + tj(':', ':') + tw("RegTag"@) + tp('+') + seq![TokV::Punct('\'', true)]
}

#[verifier::spinoff_prover]
#[verifier::rlimit(80)]
fn emit_rmreg_impls_3(toks: &Vec<Tok>, g: &MReg, gp: &MRegPlan, out: &mut Vec<Tok>)
    ensures
        toks_view(final(out)@) == toks_view(old(out)@) + rmreg_impls_3(toks@, mreg_view(*g), mreg_plan_view(*gp)),
{
    let ghost b = toks_view(old(out)@);
    emit_word(out, "_T");
    emit_punct(out, '>');
    emit_open(out, Delim::Brace);
    emit_word(out, "type");
    emit_word(out, "Val");
    emit_punct(out, '=');
    emit_word(out, "self");
    emit_joint(out, ':', ':');
    emit_word(out, "Val");
    emit_punct(out, ';');
    emit_word(out, "const");
    emit_word(out, "ADDRESS");
    emit_punct(out, ':');
    emit_word(out, "usize");
    emit_punct(out, '=');
    emit_decimal(out, g.address);
    emit_punct(out, ';');
    emit_close(out, Delim::Brace);
    emit_word(out, "impl");
    emit_punct(out, '<');
    push_tok(out, Tok::Punct('\'', true));
    emit_word(out, "a");
    emit_punct(out, ',');
    emit_word(out, "_T");
    emit_punct(out, ':');
    emit_word(out, "reg");
    emit_joint(out, ':', ':');
    emit_word(out, "RegTag");
    emit_punct(out, '+');
    push_tok(out, Tok::Punct('\'', true));
    proof {
        reveal(rmreg_impls_3);
    }
    assert(toks_view(out@) =~= b + rmreg_impls_3(toks@, mreg_view(*g), mreg_plan_view(*gp)));
}

/// A part of `rmreg_impls`.
#[verifier::opaque]
pub open spec fn rmreg_impls_4(toks: Seq<Tok>, g: MRegV, gp: MRegPlanV) -> Seq<TokV> {
    tw("a"@) + tp('>') + tw("reg"@) + tj(':', ':') + tw("RegRef"@) + tp('<') + seq![TokV::Punct('\'', true)] + tw("a"@) + tp(',') + tw("_T"@) + tp('>') + tw("for"@) + tw("self"@) + tj(':', ':') + tw("Reg"@) + tp('<') + tw("_T"@) + tp('>') + topen(Delim::Brace) + tw("type"@) + tw("Hold"@) + tp('=') + tw("self"@) + tj(':', ':') + tw("Hold"@) + tp('<') + seq![TokV::Punct('\'', true)] + tw("a"@) + tp(',') + tw("_T"@)
}

#[verifier::spinoff_prover]
#[verifier::rlimit(80)]
fn emit_rmreg_impls_4(toks: &Vec<Tok>, g: &MReg, gp: &MRegPlan, out: &mut Vec<Tok>)
    ensures
        toks_view(final(out)@) == toks_view(old(out)@) + rmreg_impls_4(toks@, mreg_view(*g), mreg_plan_view(*gp)),
{
    let ghost b = toks_view(old(out)@);
    emit_word(out, "a");
    emit_punct(out, '>');
    emit_word(out, "reg");
    emit_joint(out, ':', ':');
    emit_word(out, "RegRef");
    emit_punct(out, '<');
    push_tok(out, Tok::Punct('\'', true));
    emit_word(out, "a");
    emit_punct(out, ',');
    emit_word(out, "_T");
    emit_punct(out, '>');
    emit_word(out, "for");
    emit_word(out, "self");
    emit_joint(out, ':', ':');
    emit_word(out, "Reg");
    emit_punct(out, '<');
    emit_word(out, "_T");
    emit_punct(out, '>');
    emit_open(out, Delim::Brace);
    emit_word(out, "type");
    emit_word(out, "Hold");
    emit_punct(out, '=');
    emit_word(out, "self");
    emit_joint(out, ':', ':');
    emit_word(out, "Hold");
    emit_punct(out, '<');
    push_tok(out, Tok::Punct('\'', true));
    emit_word(out, "a");
    emit_punct(out, ',');
    emit_word(out, "_T");
    proof {
        reveal(rmreg_impls_4);
    }
    assert(toks_view(out@) =~= b + rmreg_impls_4(toks@, mreg_view(*g), mreg_plan_view(*gp)));
}

/// A part of `rmreg_impls`.
#[verifier::opaque]
pub open spec fn rmreg_impls_5(toks: Seq<Tok>, g: MRegV, gp: MRegPlanV) -> Seq<TokV> {
    tp('>') + tp(';') + tclose(Delim::Brace)
}

#[verifier::spinoff_prover]
#[verifier::rlimit(80)]
fn emit_rmreg_impls_5(toks: &Vec<Tok>, g: &MReg, gp: &MRegPlan, out: &mut Vec<Tok>)
    ensures
        toks_view(final(out)@) == toks_view(old(out)@) + rmreg_impls_5(toks@, mreg_view(*g), mreg_plan_view(*gp)),
{
    let ghost b = toks_view(old(out)@);
    emit_punct(out, '>');
    emit_punct(out, ';');
    emit_close(out, Delim::Brace);
    proof {
        reveal(rmreg_impls_5);
    }
    assert(toks_view(out@) =~= b + rmreg_impls_5(toks@, mreg_view(*g), mreg_plan_view(*gp)));
}

/// `} impl<_T: reg::RegTag> self::Reg<_T> { .. new() .. } impl<_T: reg::RegTag> reg::Reg<_T> for self::Reg<T> { .. } impl<'a, T: reg::RegTag + 'a> reg::RegRef<'a, T> for self::Reg<T> { .. }`
#[verifier::opaque]
pub open spec fn rmreg_impls(toks: Seq<Tok>, g: MRegV, gp: MRegPlanV) -> Seq<TokV> {
    rmreg_impls_1(toks, g, gp) + rmreg_impls_2(toks, g, gp) + rmreg_impls_3(toks, g, gp) + rmreg_impls_4(toks, g, gp) + rmreg_impls_5(toks, g, gp)
}

#[verifier::spinoff_prover]
#[verifier::rlimit(80)]
fn emit_rmreg_impls(toks: &Vec<Tok>, g: &MReg, gp: &MRegPlan, out: &mut Vec<Tok>)
    ensures
        toks_view(final(out)@) == toks_view(old(out)@) + rmreg_impls(toks@, mreg_view(*g), mreg_plan_view(*gp)),
{
    let ghost b = toks_view(old(out)@);
    emit_rmreg_impls_1(toks, g, gp, out);
    emit_rmreg_impls_2(toks, g, gp, out);
    emit_rmreg_impls_3(toks, g, gp, out);
    emit_rmreg_impls_4(toks, g, gp, out);
    emit_rmreg_impls_5(toks, g, gp, out);
    proof {
        reveal(rmreg_impls);
    }
    assert(toks_view(out@) =~= b + rmreg_impls(toks@, mreg_view(*g), mreg_plan_view(*gp)));
}

/// `impl<_T: reg::RegTag> TRAIT<_T> for self::Reg<_T> {}`
#[verifier::opaque]
pub open spec fn rmreg_trait(toks: Seq<Tok>, tr: usize) -> Seq<TokV> {
    tw("impl"@) + tp('<') + tw("_T"@) + tp(':') + tw("reg"@) + tj(':', ':') + tw("RegTag"@) + tp('>') + span_toks(toks, one(tr)) + tp('<') + tw("_T"@) + tp('>') + tw("for"@) + tw("self"@) + tj(':', ':') + tw("Reg"@) + tp('<') + tw("_T"@) + tp('>') + topen(Delim::Brace) + tclose(Delim::Brace)
}

#[verifier::spinoff_prover]
#[verifier::rlimit(80)]
fn emit_rmreg_trait(toks: &Vec<Tok>, tr: usize, out: &mut Vec<Tok>)
    ensures
        toks_view(final(out)@) == toks_view(old(out)@) + rmreg_trait(toks@, tr),
{
    let ghost b = toks_view(old(out)@);
    emit_word(out, "impl");
    emit_punct(out, '<');
    emit_word(out, "_T");
    emit_punct(out, ':');
    emit_word(out, "reg");
    emit_joint(out, ':', ':');
    emit_word(out, "RegTag");
    emit_punct(out, '>');
    emit_span(toks, one_exec(tr), out);
    emit_punct(out, '<');
    emit_word(out, "_T");
    emit_punct(out, '>');
    emit_word(out, "for");
    emit_word(out, "self");
    emit_joint(out, ':', ':');
    emit_word(out, "Reg");
    emit_punct(out, '<');
    emit_word(out, "_T");
    emit_punct(out, '>');
    emit_open(out, Delim::Brace);
    emit_close(out, Delim::Brace);
    proof {
        reveal(rmreg_trait);
    }
    assert(toks_view(out@) =~= b + rmreg_trait(toks@, tr));
}

/// A part of `rmreg_froms`.
#[verifier::opaque]
pub open spec fn rmreg_froms_1(toks: Seq<Tok>, g: MRegV, gp: MRegPlanV) -> Seq<TokV> {
    tw("impl"@) + tw("From"@) + tp('<') + tw("self"@) + tj(':', ':') + tw("Reg"@) + tp('<') + tw("reg"@) + tj(':', ':') + tw("Urt"@) + tp('>') + tp('>') + tw("for"@) + tw("self"@) + tj(':', ':') + tw("Reg"@) + tp('<') + tw("reg"@) + tj(':', ':') + tw("Srt"@) + tp('>') + topen(Delim::Brace) + tp('#') + topen(Delim::Bracket) + tw("inline"@) + topen(Delim::Paren) + tw("always"@) + tclose(Delim::Paren) + tclose(Delim::Bracket) + tw("fn"@) + tw("from"@) + topen(Delim::Paren) + tw("_reg"@) + tp(':') + tw("self"@) + tj(':', ':') + tw("Reg"@) + tp('<') + tw("reg"@) + tj(':', ':')
}

#[verifier::spinoff_prover]
#[verifier::rlimit(80)]
fn emit_rmreg_froms_1(toks: &Vec<Tok>, g: &MReg, gp: &MRegPlan, out: &mut Vec<Tok>)
    ensures
        toks_view(final(out)@) == toks_view(old(out)@) + rmreg_froms_1(toks@, mreg_view(*g), mreg_plan_view(*gp)),
{
    let ghost b = toks_view(old(out)@);
    emit_word(out, "impl");
    emit_word(out, "From");
    emit_punct(out, '<');
    emit_word(out, "self");
    emit_joint(out, ':', ':');
    emit_word(out, "Reg");
    emit_punct(out, '<');
    emit_word(out, "reg");
    emit_joint(out, ':', ':');
    emit_word(out, "Urt");
    emit_punct(out, '>');
    emit_punct(out, '>');
    emit_word(out, "for");
    emit_word(out, "self");
    emit_joint(out, ':', ':');
    emit_word(out, "Reg");
    emit_punct(out, '<');
    emit_word(out, "reg");
    emit_joint(out, ':', ':');
    emit_word(out, "Srt");
    emit_punct(out, '>');
    emit_open(out, Delim::Brace);
    emit_punct(out, '#');
    emit_open(out, Delim::Bracket);
    emit_word(out, "inline");
    emit_open(out, Delim::Paren);
    emit_word(out, "always");
    emit_close(out, Delim::Paren);
    emit_close(out, Delim::Bracket);
    emit_word(out, "fn");
    emit_word(out, "from");
    emit_open(out, Delim::Paren);
    emit_word(out, "_reg");
    emit_punct(out, ':');
    emit_word(out, "self");
    emit_joint(out, ':', ':');
    emit_word(out, "Reg");
    emit_punct(out, '<');
    emit_word(out, "reg");
    emit_joint(out, ':', ':');
    proof {
        reveal(rmreg_froms_1);
    }
    assert(toks_view(out@) =~= b + rmreg_froms_1(toks@, mreg_view(*g), mreg_plan_view(*gp)));
}

/// A part of `rmreg_froms`.
#[verifier::opaque]
pub open spec fn rmreg_froms_2(toks: Seq<Tok>, g: MRegV, gp: MRegPlanV) -> Seq<TokV> {
    tw("Urt"@) + tp('>') + tclose(Delim::Paren) + tj('-', '>') + tw("Self"@) + topen(Delim::Brace) + tw("unsafe"@) + topen(Delim::Brace) + tw("Self"@) + tj(':', ':') + tw("new"@) + topen(Delim::Paren) + tclose(Delim::Paren) + tclose(Delim::Brace) + tclose(Delim::Brace) + tclose(Delim::Brace) + tw("impl"@) + tw("From"@) + tp('<') + tw("self"@) + tj(':', ':') + tw("Reg"@) + tp('<') + tw("reg"@) + tj(':', ':') + tw("Urt"@) + tp('>') + tp('>') + tw("for"@) + tw("self"@) + tj(':', ':') + tw("Reg"@) + tp('<') + tw("reg"@) + tj(':', ':') + tw("Frt"@) + tp('>') + topen(Delim::Brace) + tp('#') + topen(Delim::Bracket)
}

#[verifier::spinoff_prover]
#[verifier::rlimit(80)]
fn emit_rmreg_froms_2(toks: &Vec<Tok>, g: &MReg, gp: &MRegPlan, out: &mut Vec<Tok>)
    ensures
        toks_view(final(out)@) == toks_view(old(out)@) + rmreg_froms_2(toks@, mreg_view(*g), mreg_plan_view(*gp)),
{
    let ghost b = toks_view(old(out)@);
    emit_word(out, "Urt");
    emit_punct(out, '>');
    emit_close(out, Delim::Paren);
    emit_joint(out, '-', '>');
    emit_word(out, "Self");
    emit_open(out, Delim::Brace);
    emit_word(out, "unsafe");
    emit_open(out, Delim::Brace);
    emit_word(out, "Self");
    emit_joint(out, ':', ':');
    emit_word(out, "new");
    emit_open(out, Delim::Paren);
    emit_close(out, Delim::Paren);
    emit_close(out, Delim::Brace);
    emit_close(out, Delim::Brace);
    emit_close(out, Delim::Brace);
    emit_word(out, "impl");
    emit_word(out, "From");
    emit_punct(out, '<');
    emit_word(out, "self");
    emit_joint(out, ':', ':');
    emit_word(out, "Reg");
    emit_punct(out, '<');
    emit_word(out, "reg");
    emit_joint(out, ':', ':');
    emit_word(out, "Urt");
    emit_punct(out, '>');
    emit_punct(out, '>');
    emit_word(out, "for");
    emit_word(out, "self");
    emit_joint(out, ':', ':');
    emit_word(out, "Reg");
    emit_punct(out, '<');
    emit_word(out, "reg");
    emit_joint(out, ':', ':');
    emit_word(out, "Frt");
    emit_punct(out, '>');
    emit_open(out, Delim::Brace);
    emit_punct(out, '#');
    emit_open(out, Delim::Bracket);
    proof {
        reveal(rmreg_froms_2);
    }
    assert(toks_view(out@) =~= b + rmreg_froms_2(toks@, mreg_view(*g), mreg_plan_view(*gp)));
}

/// A part of `rmreg_froms`.
#[verifier::opaque]
pub open spec fn rmreg_froms_3(toks: Seq<Tok>, g: MRegV, gp: MRegPlanV) -> Seq<TokV> {
    tw("inline"@) + topen(Delim::Paren) + tw("always"@) + tclose(Delim::Paren) + tclose(Delim::Bracket) + tw("fn"@) + tw("from"@) + topen(Delim::Paren) + tw("_reg"@) + tp(':') + tw("self"@) + tj(':', ':') + tw("Reg"@) + tp('<') + tw("reg"@) + tj(':', ':') + tw("Urt"@) + tp('>') + tclose(Delim::Paren) + tj('-', '>') + tw("Self"@) + topen(Delim::Brace) + tw("unsafe"@) + topen(Delim::Brace) + tw("Self"@) + tj(':', ':') + tw("new"@) + topen(Delim::Paren) + tclose(Delim::Paren) + tclose(Delim::Brace) + tclose(Delim::Brace) + tclose(Delim::Brace) + tw("impl"@) + tw("From"@) + tp('<') + tw("self"@) + tj(':', ':') + tw("Reg"@) + tp('<') + tw("reg"@)
}

#[verifier::spinoff_prover]
#[verifier::rlimit(80)]
fn emit_rmreg_froms_3(toks: &Vec<Tok>, g: &MReg, gp: &MRegPlan, out: &mut Vec<Tok>)
    ensures
        toks_view(final(out)@) == toks_view(old(out)@) + rmreg_froms_3(toks@, mreg_view(*g), mreg_plan_view(*gp)),
{
    let ghost b = toks_view(old(out)@);
    emit_word(out, "inline");
    emit_open(out, Delim::Paren);
    emit_word(out, "always");
    emit_close(out, Delim::Paren);
    emit_close(out, Delim::Bracket);
    emit_word(out, "fn");
    emit_word(out, "from");
    emit_open(out, Delim::Paren);
    emit_word(out, "_reg");
    emit_punct(out, ':');
    emit_word(out, "self");
    emit_joint(out, ':', ':');
    emit_word(out, "Reg");
    emit_punct(out, '<');
    emit_word(out, "reg");
    emit_joint(out, ':', ':');
    emit_word(out, "Urt");
    emit_punct(out, '>');
    emit_close(out, Delim::Paren);
    emit_joint(out, '-', '>');
    emit_word(out, "Self");
    emit_open(out, Delim::Brace);
    emit_word(out, "unsafe");
    emit_open(out, Delim::Brace);
    emit_word(out, "Self");
    emit_joint(out, ':', ':');
    emit_word(out, "new");
    emit_open(out, Delim::Paren);
    emit_close(out, Delim::Paren);
    emit_close(out, Delim::Brace);
    emit_close(out, Delim::Brace);
    emit_close(out, Delim::Brace);
    emit_word(out, "impl");
    emit_word(out, "From");
    emit_punct(out, '<');
    emit_word(out, "self");
    emit_joint(out, ':', ':');
    emit_word(out, "Reg");
    emit_punct(out, '<');
    emit_word(out, "reg");
    proof {
        reveal(rmreg_froms_3);
    }
    assert(toks_view(out@) =~= b + rmreg_froms_3(toks@, mreg_view(*g), mreg_plan_view(*gp)));
}

/// A part of `rmreg_froms`.
#[verifier::opaque]
pub open spec fn rmreg_froms_4(toks: Seq<Tok>, g: MRegV, gp: MRegPlanV) -> Seq<TokV> {
    tj(':', ':') + tw("Urt"@) + tp('>') + tp('>') + tw("for"@) + tw("self"@) + tj(':', ':') + tw("Reg"@) + tp('<') + tw("reg"@) + tj(':', ':') + tw("Crt"@) + tp('>') + topen(Delim::Brace) + tp('#') + topen(Delim::Bracket) + tw("inline"@) + topen(Delim::Paren) + tw("always"@) + tclose(Delim::Paren) + tclose(Delim::Bracket) + tw("fn"@) + tw("from"@) + topen(Delim::Paren) + tw("_reg"@) + tp(':') + tw("self"@) + tj(':', ':') + tw("Reg"@) + tp('<') + tw("reg"@) + tj(':', ':') + tw("Urt"@) + tp('>') + tclose(Delim::Paren) + tj('-', '>') + tw("Self"@) + topen(Delim::Brace) + tw("unsafe"@) + topen(Delim::Brace)
}

#[verifier::spinoff_prover]
#[verifier::rlimit(80)]
fn emit_rmreg_froms_4(toks: &Vec<Tok>, g: &MReg, gp: &MRegPlan, out: &mut Vec<Tok>)
    ensures
        toks_view(final(out)@) == toks_view(old(out)@) + rmreg_froms_4(toks@, mreg_view(*g), mreg_plan_view(*gp)),
{
    let ghost b = toks_view(old(out)@);
    emit_joint(out, ':', ':');
    emit_word(out, "Urt");
    emit_punct(out, '>');
    emit_punct(out, '>');
    emit_word(out, "for");
    emit_word(out, "self");
    emit_joint(out, ':', ':');
    emit_word(out, "Reg");
    emit_punct(out, '<');
    emit_word(out, "reg");
    emit_joint(out, ':', ':');
    emit_word(out, "Crt");
    emit_punct(out, '>');
    emit_open(out, Delim::Brace);
    emit_punct(out, '#');
    emit_open(out, Delim::Bracket);
    emit_word(out, "inline");
    emit_open(out, Delim::Paren);
    emit_word(out, "always");
    emit_close(out, Delim::Paren);
    emit_close(out, Delim::Bracket);
    emit_word(out, "fn");
    emit_word(out, "from");
    emit_open(out, Delim::Paren);
    emit_word(out, "_reg");
    emit_punct(out, ':');
    emit_word(out, "self");
    emit_joint(out, ':', ':');
    emit_word(out, "Reg");
    emit_punct(out, '<');
    emit_word(out, "reg");
    emit_joint(out, ':', ':');
    emit_word(out, "Urt");
    emit_punct(out, '>');
    emit_close(out, Delim::Paren);
    emit_joint(out, '-', '>');
    emit_word(out, "Self");
    emit_open(out, Delim::Brace);
    emit_word(out, "unsafe");
    emit_open(out, Delim::Brace);
    proof {
        reveal(rmreg_froms_4);
    }
    assert(toks_view(out@) =~= b + rmreg_froms_4(toks@, mreg_view(*g), mreg_plan_view(*gp)));
}

/// A part of `rmreg_froms`.
#[verifier::opaque]
pub open spec fn rmreg_froms_5(toks: Seq<Tok>, g: MRegV, gp: MRegPlanV) -> Seq<TokV> {
    tw("Self"@) + tj(':', ':') + tw("new"@) + topen(Delim::Paren) + tclose(Delim::Paren) + tclose(Delim::Brace) + tclose(Delim::Brace) + tclose(Delim::Brace) + tw("impl"@) + tw("From"@) + tp('<') + tw("self"@) + tj(':', ':') + tw("Reg"@) + tp('<') + tw("reg"@) + tj(':', ':') + tw("Srt"@) + tp('>') + tp('>') + tw("for"@) + tw("self"@) + tj(':', ':') + tw("Reg"@) + tp('<') + tw("reg"@) + tj(':', ':') + tw("Urt"@) + tp('>') + topen(Delim::Brace) + tp('#') + topen(Delim::Bracket) + tw("inline"@) + topen(Delim::Paren) + tw("always"@) + tclose(Delim::Paren) + tclose(Delim::Bracket) + tw("fn"@) + tw("from"@) + topen(Delim::Paren)
}

#[verifier::spinoff_prover]
#[verifier::rlimit(80)]
fn emit_rmreg_froms_5(toks: &Vec<Tok>, g: &MReg, gp: &MRegPlan, out: &mut Vec<Tok>)
    ensures
        toks_view(final(out)@) == toks_view(old(out)@) + rmreg_froms_5(toks@, mreg_view(*g), mreg_plan_view(*gp)),
{
    let ghost b = toks_view(old(out)@);
    emit_word(out, "Self");
    emit_joint(out, ':', ':');
    emit_word(out, "new");
    emit_open(out, Delim::Paren);
    emit_close(out, Delim::Paren);
    emit_close(out, Delim::Brace);
    emit_close(out, Delim::Brace);
    emit_close(out, Delim::Brace);
    emit_word(out, "impl");
    emit_word(out, "From");
    emit_punct(out, '<');
    emit_word(out, "self");
    emit_joint(out, ':', ':');
    emit_word(out, "Reg");
    emit_punct(out, '<');
    emit_word(out, "reg");
    emit_joint(out, ':', ':');
    emit_word(out, "Srt");
    emit_punct(out, '>');
    emit_punct(out, '>');
    emit_word(out, "for");
    emit_word(out, "self");
    emit_joint(out, ':', ':');
    emit_word(out, "Reg");
    emit_punct(out, '<');
    emit_word(out, "reg");
    emit_joint(out, ':', ':');
    emit_word(out, "Urt");
    emit_punct(out, '>');
    emit_open(out, Delim::Brace);
    emit_punct(out, '#');
    emit_open(out, Delim::Bracket);
    emit_word(out, "inline");
    emit_open(out, Delim::Paren);
    emit_word(out, "always");
    emit_close(out, Delim::Paren);
    emit_close(out, Delim::Bracket);
    emit_word(out, "fn");
    emit_word(out, "from");
    emit_open(out, Delim::Paren);
    proof {
        reveal(rmreg_froms_5);
    }
    assert(toks_view(out@) =~= b + rmreg_froms_5(toks@, mreg_view(*g), mreg_plan_view(*gp)));
}

/// A part of `rmreg_froms`.
#[verifier::opaque]
pub open spec fn rmreg_froms_6(toks: Seq<Tok>, g: MRegV, gp: MRegPlanV) -> Seq<TokV> {
    tw("_reg"@) + tp(':') + tw("self"@) + tj(':', ':') + tw("Reg"@) + tp('<') + tw("reg"@) + tj(':', ':') + tw("Srt"@) + tp('>') + tclose(Delim::Paren) + tj('-', '>') + tw("Self"@) + topen(Delim::Brace) + tw("unsafe"@) + topen(Delim::Brace) + tw("Self"@) + tj(':', ':') + tw("new"@) + topen(Delim::Paren) + tclose(Delim::Paren) + tclose(Delim::Brace) + tclose(Delim::Brace) + tclose(Delim::Brace) + tw("impl"@) + tw("From"@) + tp('<') + tw("self"@) + tj(':', ':') + tw("Reg"@) + tp('<') + tw("reg"@) + tj(':', ':') + tw("Srt"@) + tp('>') + tp('>') + tw("for"@) + tw("self"@) + tj(':', ':') + tw("Reg"@)
}

#[verifier::spinoff_prover]
#[verifier::rlimit(80)]
fn emit_rmreg_froms_6(toks: &Vec<Tok>, g: &MReg, gp: &MRegPlan, out: &mut Vec<Tok>)
    ensures
        toks_view(final(out)@) == toks_view(old(out)@) + rmreg_froms_6(toks@, mreg_view(*g), mreg_plan_view(*gp)),
{
    let ghost b = toks_view(old(out)@);
    emit_word(out, "_reg");
    emit_punct(out, ':');
    emit_word(out, "self");
    emit_joint(out, ':', ':');
    emit_word(out, "Reg");
    emit_punct(out, '<');
    emit_word(out, "reg");
    emit_joint(out, ':', ':');
    emit_word(out, "Srt");
    emit_punct(out, '>');
    emit_close(out, Delim::Paren);
    emit_joint(out, '-', '>');
    emit_word(out, "Self");
    emit_open(out, Delim::Brace);
    emit_word(out, "unsafe");
    emit_open(out, Delim::Brace);
    emit_word(out, "Self");
    emit_joint(out, ':', ':');
    emit_word(out, "new");
    emit_open(out, Delim::Paren);
    emit_close(out, Delim::Paren);
    emit_close(out, Delim::Brace);
    emit_close(out, Delim::Brace);
    emit_close(out, Delim::Brace);
    emit_word(out, "impl");
    emit_word(out, "From");
    emit_punct(out, '<');
    emit_word(out, "self");
    emit_joint(out, ':', ':');
    emit_word(out, "Reg");
    emit_punct(out, '<');
    emit_word(out, "reg");
    emit_joint(out, ':', ':');
    emit_word(out, "Srt");
    emit_punct(out, '>');
    emit_punct(out, '>');
    emit_word(out, "for");
    emit_word(out, "self");
    emit_joint(out, ':', ':');
    emit_word(out, "Reg");
    proof {
        reveal(rmreg_froms_6);
    }
    assert(toks_view(out@) =~= b + rmreg_froms_6(toks@, mreg_view(*g), mreg_plan_view(*gp)));
}

/// A part of `rmreg_froms`.
#[verifier::opaque]
pub open spec fn rmreg_froms_7(toks: Seq<Tok>, g: MRegV, gp: MRegPlanV) -> Seq<TokV> {
    tp('<') + tw("reg"@) + tj(':', ':') + tw("Frt"@) + tp('>') + topen(Delim::Brace) + tp('#') + topen(Delim::Bracket) + tw("inline"@) + topen(Delim::Paren) + tw("always"@) + tclose(Delim::Paren) + tclose(Delim::Bracket) + tw("fn"@) + tw("from"@) + topen(Delim::Paren) + tw("_reg"@) + tp(':') + tw("self"@) + tj(':', ':') + tw("Reg"@) + tp('<') + tw("reg"@) + tj(':', ':') + tw("Srt"@) + tp('>') + tclose(Delim::Paren) + tj('-', '>') + tw("Self"@) + topen(Delim::Brace) + tw("unsafe"@) + topen(Delim::Brace) + tw("Self"@) + tj(':', ':') + tw("new"@) + topen(Delim::Paren) + tclose(Delim::Paren) + tclose(Delim::Brace) + tclose(Delim::Brace) + tclose(Delim::Brace)
}

#[verifier::spinoff_prover]
#[verifier::rlimit(80)]
fn emit_rmreg_froms_7(toks: &Vec<Tok>, g: &MReg, gp: &MRegPlan, out: &mut Vec<Tok>)
    ensures
        toks_view(final(out)@) == toks_view(old(out)@) + rmreg_froms_7(toks@, mreg_view(*g), mreg_plan_view(*gp)),
{
    let ghost b = toks_view(old(out)@);
    emit_punct(out, '<');
    emit_word(out, "reg");
    emit_joint(out, ':', ':');
    emit_word(out, "Frt");
    emit_punct(out, '>');
    emit_open(out, Delim::Brace);
    emit_punct(out, '#');
    emit_open(out, Delim::Bracket);
    emit_word(out, "inline");
    emit_open(out, Delim::Paren);
    emit_word(out, "always");
    emit_close(out, Delim::Paren);
    emit_close(out, Delim::Bracket);
    emit_word(out, "fn");
    emit_word(out, "from");
    emit_open(out, Delim::Paren);
    emit_word(out, "_reg");
    emit_punct(out, ':');
    emit_word(out, "self");
    emit_joint(out, ':', ':');
    emit_word(out, "Reg");
    emit_punct(out, '<');
    emit_word(out, "reg");
    emit_joint(out, ':', ':');
    emit_word(out, "Srt");
    emit_punct(out, '>');
    emit_close(out, Delim::Paren);
    emit_joint(out, '-', '>');
    emit_word(out, "Self");
    emit_open(out, Delim::Brace);
    emit_word(out, "unsafe");
    emit_open(out, Delim::Brace);
    emit_word(out, "Self");
    emit_joint(out, ':', ':');
    emit_word(out, "new");
    emit_open(out, Delim::Paren);
    emit_close(out, Delim::Paren);
    emit_close(out, Delim::Brace);
    emit_close(out, Delim::Brace);
    emit_close(out, Delim::Brace);
    proof {
        reveal(rmreg_froms_7);
    }
    assert(toks_view(out@) =~= b + rmreg_froms_7(toks@, mreg_view(*g), mreg_plan_view(*gp)));
}

/// A part of `rmreg_froms`.
#[verifier::opaque]
pub open spec fn rmreg_froms_8(toks: Seq<Tok>, g: MRegV, gp: MRegPlanV) -> Seq<TokV> {
    tw("impl"@) + tw("From"@) + tp('<') + tw("self"@) + tj(':', ':') + tw("Reg"@) + tp('<') + tw("reg"@) + tj(':', ':') + tw("Srt"@) + tp('>') + tp('>') + tw("for"@) + tw("self"@) + tj(':', ':') + tw("Reg"@) + tp('<') + tw("reg"@) + tj(':', ':') + tw("Crt"@) + tp('>') + topen(Delim::Brace) + tp('#') + topen(Delim::Bracket) + tw("inline"@) + topen(Delim::Paren) + tw("always"@) + tclose(Delim::Paren) + tclose(Delim::Bracket) + tw("fn"@) + tw("from"@) + topen(Delim::Paren) + tw("_reg"@) + tp(':') + tw("self"@) + tj(':', ':') + tw("Reg"@) + tp('<') + tw("reg"@) + tj(':', ':')
}

#[verifier::spinoff_prover]
#[verifier::rlimit(80)]
fn emit_rmreg_froms_8(toks: &Vec<Tok>, g: &MReg, gp: &MRegPlan, out: &mut Vec<Tok>)
    ensures
        toks_view(final(out)@) == toks_view(old(out)@) + rmreg_froms_8(toks@, mreg_view(*g), mreg_plan_view(*gp)),
{
    let ghost b = toks_view(old(out)@);
    emit_word(out, "impl");
    emit_word(out, "From");
    emit_punct(out, '<');
    emit_word(out, "self");
    emit_joint(out, ':', ':');
    emit_word(out, "Reg");
    emit_punct(out, '<');
    emit_word(out, "reg");
    emit_joint(out, ':', ':');
    emit_word(out, "Srt");
    emit_punct(out, '>');
    emit_punct(out, '>');
    emit_word(out, "for");
    emit_word(out, "self");
    emit_joint(out, ':', ':');
    emit_word(out, "Reg");
    emit_punct(out, '<');
    emit_word(out, "reg");
    emit_joint(out, ':', ':');
    emit_word(out, "Crt");
    emit_punct(out, '>');
    emit_open(out, Delim::Brace);
    emit_punct(out, '#');
    emit_open(out, Delim::Bracket);
    emit_word(out, "inline");
    emit_open(out, Delim::Paren);
    emit_word(out, "always");
    emit_close(out, Delim::Paren);
    emit_close(out, Delim::Bracket);
    emit_word(out, "fn");
    emit_word(out, "from");
    emit_open(out, Delim::Paren);
    emit_word(out, "_reg");
    emit_punct(out, ':');
    emit_word(out, "self");
    emit_joint(out, ':', ':');
    emit_word(out, "Reg");
    emit_punct(out, '<');
    emit_word(out, "reg");
    emit_joint(out, ':', ':');
    proof {
        reveal(rmreg_froms_8);
    }
    assert(toks_view(out@) =~= b + rmreg_froms_8(toks@, mreg_view(*g), mreg_plan_view(*gp)));
}

/// A part of `rmreg_froms`.
#[verifier::opaque]
pub open spec fn rmreg_froms_9(toks: Seq<Tok>, g: MRegV, gp: MRegPlanV) -> Seq<TokV> {
    tw("Srt"@) + tp('>') + tclose(Delim::Paren) + tj('-', '>') + tw("Self"@) + topen(Delim::Brace) + tw("unsafe"@) + topen(Delim::Brace) + tw("Self"@) + tj(':', ':') + tw("new"@) + topen(Delim::Paren) + tclose(Delim::Paren) + tclose(Delim::Brace) + tclose(Delim::Brace) + tclose(Delim::Brace) + tw("impl"@) + tw("From"@) + tp('<') + tw("self"@) + tj(':', ':') + tw("Reg"@) + tp('<') + tw("reg"@) + tj(':', ':') + tw("Frt"@) + tp('>') + tp('>') + tw("for"@) + tw("self"@) + tj(':', ':') + tw("Reg"@) + tp('<') + tw("reg"@) + tj(':', ':') + tw("Crt"@) + tp('>') + topen(Delim::Brace) + tp('#') + topen(Delim::Bracket)
}

#[verifier::spinoff_prover]
#[verifier::rlimit(80)]
fn emit_rmreg_froms_9(toks: &Vec<Tok>, g: &MReg, gp: &MRegPlan, out: &mut Vec<Tok>)
    ensures
        toks_view(final(out)@) == toks_view(old(out)@) + rmreg_froms_9(toks@, mreg_view(*g), mreg_plan_view(*gp)),
{
    let ghost b = toks_view(old(out)@);
    emit_word(out, "Srt");
    emit_punct(out, '>');
    emit_close(out, Delim::Paren);
    emit_joint(out, '-', '>');
    emit_word(out, "Self");
    emit_open(out, Delim::Brace);
    emit_word(out, "unsafe");
    emit_open(out, Delim::Brace);
    emit_word(out, "Self");
    emit_joint(out, ':', ':');
    emit_word(out, "new");
    emit_open(out, Delim::Paren);
    emit_close(out, Delim::Paren);
    emit_close(out, Delim::Brace);
    emit_close(out, Delim::Brace);
    emit_close(out, Delim::Brace);
    emit_word(out, "impl");
    emit_word(out, "From");
    emit_punct(out, '<');
    emit_word(out, "self");
    emit_joint(out, ':', ':');
    emit_word(out, "Reg");
    emit_punct(out, '<');
    emit_word(out, "reg");
    emit_joint(out, ':', ':');
    emit_word(out, "Frt");
    emit_punct(out, '>');
    emit_punct(out, '>');
    emit_word(out, "for");
    emit_word(out, "self");
    emit_joint(out, ':', ':');
    emit_word(out, "Reg");
    emit_punct(out, '<');
    emit_word(out, "reg");
    emit_joint(out, ':', ':');
    emit_word(out, "Crt");
    emit_punct(out, '>');
    emit_open(out, Delim::Brace);
    emit_punct(out, '#');
    emit_open(out, Delim::Bracket);
    proof {
        reveal(rmreg_froms_9);
    }
    assert(toks_view(out@) =~= b + rmreg_froms_9(toks@, mreg_view(*g), mreg_plan_view(*gp)));
}

/// A part of `rmreg_froms`.
#[verifier::opaque]
pub open spec fn rmreg_froms_10(toks: Seq<Tok>, g: MRegV, gp: MRegPlanV) -> Seq<TokV> {
    tw("inline"@) + topen(Delim::Paren) + tw("always"@) + tclose(Delim::Paren) + tclose(Delim::Bracket) + tw("fn"@) + tw("from"@) + topen(Delim::Paren) + tw("_reg"@) + tp(':') + tw("self"@) + tj(':', ':') + tw("Reg"@) + tp('<') + tw("reg"@) + tj(':', ':') + tw("Frt"@) + tp('>') + tclose(Delim::Paren) + tj('-', '>') + tw("Self"@) + topen(Delim::Brace) + tw("unsafe"@) + topen(Delim::Brace) + tw("Self"@) + tj(':', ':') + tw("new"@) + topen(Delim::Paren) + tclose(Delim::Paren) + tclose(Delim::Brace) + tclose(Delim::Brace) + tclose(Delim::Brace)
}

#[verifier::spinoff_prover]
#[verifier::rlimit(80)]
fn emit_rmreg_froms_10(toks: &Vec<Tok>, g: &MReg, gp: &MRegPlan, out: &mut Vec<Tok>)
    ensures
        toks_view(final(out)@) == toks_view(old(out)@) + rmreg_froms_10(toks@, mreg_view(*g), mreg_plan_view(*gp)),
{
    let ghost b = toks_view(old(out)@);
    emit_word(out, "inline");
    emit_open(out, Delim::Paren);
    emit_word(out, "always");
    emit_close(out, Delim::Paren);
    emit_close(out, Delim::Bracket);
    emit_word(out, "fn");
    emit_word(out, "from");
    emit_open(out, Delim::Paren);
    emit_word(out, "_reg");
    emit_punct(out, ':');
    emit_word(out, "self");
    emit_joint(out, ':', ':');
    emit_word(out, "Reg");
    emit_punct(out, '<');
    emit_word(out, "reg");
    emit_joint(out, ':', ':');
    emit_word(out, "Frt");
    emit_punct(out, '>');
    emit_close(out, Delim::Paren);
    emit_joint(out, '-', '>');
    emit_word(out, "Self");
    emit_open(out, Delim::Brace);
    emit_word(out, "unsafe");
    emit_open(out, Delim::Brace);
    emit_word(out, "Self");
    emit_joint(out, ':', ':');
    emit_word(out, "new");
    emit_open(out, Delim::Paren);
    emit_close(out, Delim::Paren);
    emit_close(out, Delim::Brace);
    emit_close(out, Delim::Brace);
    emit_close(out, Delim::Brace);
    proof {
        reveal(rmreg_froms_10);
    }
    assert(toks_view(out@) =~= b + rmreg_froms_10(toks@, mreg_view(*g), mreg_plan_view(*gp)));
}

/// The conversions of the register token between its tags.
#[verifier::opaque]
pub open spec fn rmreg_froms(toks: Seq<Tok>, g: MRegV, gp: MRegPlanV) -> Seq<TokV> {
    rmreg_froms_1(toks, g, gp) + rmreg_froms_2(toks, g, gp) + rmreg_froms_3(toks, g, gp) + rmreg_froms_4(toks, g, gp) + rmreg_froms_5(toks, g, gp) + rmreg_froms_6(toks, g, gp) + rmreg_froms_7(toks, g, gp) + rmreg_froms_8(toks, g, gp) + rmreg_froms_9(toks, g, gp) + rmreg_froms_10(toks, g, gp)
}

#[verifier::spinoff_prover]
#[verifier::rlimit(80)]
fn emit_rmreg_froms(toks: &Vec<Tok>, g: &MReg, gp: &MRegPlan, out: &mut Vec<Tok>)
    ensures
        toks_view(final(out)@) == toks_view(old(out)@) + rmreg_froms(toks@, mreg_view(*g), mreg_plan_view(*gp)),
{
    let ghost b = toks_view(old(out)@);
    emit_rmreg_froms_1(toks, g, gp, out);
    emit_rmreg_froms_2(toks, g, gp, out);
    emit_rmreg_froms_3(toks, g, gp, out);
    emit_rmreg_froms_4(toks, g, gp, out);
    emit_rmreg_froms_5(toks, g, gp, out);
    emit_rmreg_froms_6(toks, g, gp, out);
    emit_rmreg_froms_7(toks, g, gp, out);
    emit_rmreg_froms_8(toks, g, gp, out);
    emit_rmreg_froms_9(toks, g, gp, out);
    emit_rmreg_froms_10(toks, g, gp, out);
    proof {
        reveal(rmreg_froms);
    }
    assert(toks_view(out@) =~= b + rmreg_froms(toks@, mreg_view(*g), mreg_plan_view(*gp)));
}

/// A part of `rmreg_fork`.
#[verifier::opaque]
pub open spec fn rmreg_fork_1(toks: Seq<Tok>, g: MRegV, gp: MRegPlanV) -> Seq<TokV> {
    tw("impl"@) + tw("reg"@) + tj(':', ':') + tw("RegFork"@) + tw("for"@) + tw("self"@) + tj(':', ':') + tw("Reg"@) + tp('<') + tw("reg"@) + tj(':', ':') + tw("Frt"@) + tp('>') + topen(Delim::Brace) + tp('#') + topen(Delim::Bracket) + tw("inline"@) + topen(Delim::Paren) + tw("always"@) + tclose(Delim::Paren) + tclose(Delim::Bracket) + tw("fn"@) + tw("fork"@) + topen(Delim::Paren) + tp('&') + tw("mut"@) + tw("self"@) + tclose(Delim::Paren) + tj('-', '>') + tw("Self"@)
}

#[verifier::spinoff_prover]
#[verifier::rlimit(80)]
fn emit_rmreg_fork_1(toks: &Vec<Tok>, g: &MReg, gp: &MRegPlan, out: &mut Vec<Tok>)
    ensures
        toks_view(final(out)@) == toks_view(old(out)@) + rmreg_fork_1(toks@, mreg_view(*g), mreg_plan_view(*gp)),
{
    let ghost b = toks_view(old(out)@);
    emit_word(out, "impl");
    emit_word(out, "reg");
    emit_joint(out, ':', ':');
    emit_word(out, "RegFork");
    emit_word(out, "for");
    emit_word(out, "self");
    emit_joint(out, ':', ':');
    emit_word(out, "Reg");
    emit_punct(out, '<');
    emit_word(out, "reg");
    emit_joint(out, ':', ':');
    emit_word(out, "Frt");
    emit_punct(out, '>');
    emit_open(out, Delim::Brace);
    emit_punct(out, '#');
    emit_open(out, Delim::Bracket);
    emit_word(out, "inline");
    emit_open(out, Delim::Paren);
    emit_word(out, "always");
    emit_close(out, Delim::Paren);
    emit_close(out, Delim::Bracket);
    emit_word(out, "fn");
    emit_word(out, "fork");
    emit_open(out, Delim::Paren);
    emit_punct(out, '&');
    emit_word(out, "mut");
    emit_word(out, "self");
    emit_close(out, Delim::Paren);
    emit_joint(out, '-', '>');
    emit_word(out, "Self");
    proof {
        reveal(rmreg_fork_1);
    }
    assert(toks_view(out@) =~= b + rmreg_fork_1(toks@, mreg_view(*g), mreg_plan_view(*gp)));
}

/// A part of `rmreg_fork`.
#[verifier::opaque]
pub open spec fn rmreg_fork_2(toks: Seq<Tok>, g: MRegV, gp: MRegPlanV) -> Seq<TokV> {
    topen(Delim::Brace) + tw("Self"@) + topen(Delim::Brace) + fork_list(gp.fields) + tclose(Delim::Brace) + tclose(Delim::Brace) + tclose(Delim::Brace)
}

#[verifier::spinoff_prover]
#[verifier::rlimit(80)]
fn emit_rmreg_fork_2(toks: &Vec<Tok>, g: &MReg, gp: &MRegPlan, out: &mut Vec<Tok>)
    ensures
        toks_view(final(out)@) == toks_view(old(out)@) + rmreg_fork_2(toks@, mreg_view(*g), mreg_plan_view(*gp)),
{
    let ghost b = toks_view(old(out)@);
    emit_open(out, Delim::Brace);
    emit_word(out, "Self");
    emit_open(out, Delim::Brace);
    emit_fork_list(&gp.fields, out);
    emit_close(out, Delim::Brace);
    emit_close(out, Delim::Brace);
    emit_close(out, Delim::Brace);
    proof {
        reveal(rmreg_fork_2);
    }
    assert(toks_view(out@) =~= b + rmreg_fork_2(toks@, mreg_view(*g), mreg_plan_view(*gp)));
}

/// The register token's `RegFork`.
#[verifier::opaque]
pub open spec fn rmreg_fork(toks: Seq<Tok>, g: MRegV, gp: MRegPlanV) -> Seq<TokV> {
    rmreg_fork_1(toks, g, gp) + rmreg_fork_2(toks, g, gp)
}

#[verifier::spinoff_prover]
#[verifier::rlimit(80)]
fn emit_rmreg_fork(toks: &Vec<Tok>, g: &MReg, gp: &MRegPlan, out: &mut Vec<Tok>)
    ensures
        toks_view(final(out)@) == toks_view(old(out)@) + rmreg_fork(toks@, mreg_view(*g), mreg_plan_view(*gp)),
{
    let ghost b = toks_view(old(out)@);
    emit_rmreg_fork_1(toks, g, gp, out);
    emit_rmreg_fork_2(toks, g, gp, out);
    proof {
        reveal(rmreg_fork);
    }
    assert(toks_view(out@) =~= b + rmreg_fork(toks@, mreg_view(*g), mreg_plan_view(*gp)));
}

/// A part of `rmreg_hold`.
#[verifier::opaque]
pub open spec fn rmreg_hold_1(toks: Seq<Tok>, g: MRegV, gp: MRegPlanV) -> Seq<TokV> {
    pound_attrs(toks, g.attrs) + tw("pub"@) + tw("struct"@) + tw("Hold"@) + tp('<') + seq![TokV::Punct('\'', true)] + tw("a"@) + tp(',') + tw("_T"@) + tp(':') + tw("reg"@) + tj(':', ':') + tw("RegTag"@) + tp('+') + seq![TokV::Punct('\'', true)] + tw("a"@) + tp('>') + topen(Delim::Brace) + tw("reg"@) + tp(':') + tp('&') + seq![TokV::Punct('\'', true)] + tw("a"@) + tw("self"@) + tj(':', ':') + tw("Reg"@) + tp('<') + tw("_T"@) + tp('>') + tp(',') + tw("val"@) + tp(':') + tw("self"@) + tj(':', ':') + tw("Val"@) + tp(',') + tclose(Delim::Brace) + tw("impl"@) + tp('<') + seq![TokV::Punct('\'', true)]
}

#[verifier::spinoff_prover]
#[verifier::rlimit(80)]
fn emit_rmreg_hold_1(toks: &Vec<Tok>, g: &MReg, gp: &MRegPlan, out: &mut Vec<Tok>)
    ensures
        toks_view(final(out)@) == toks_view(old(out)@) + rmreg_hold_1(toks@, mreg_view(*g), mreg_plan_view(*gp)),
{
    let ghost b = toks_view(old(out)@);
    emit_pound_attrs(toks, &g.attrs, out);
    emit_word(out, "pub");
    emit_word(out, "struct");
    emit_word(out, "Hold");
    emit_punct(out, '<');
    push_tok(out, Tok::Punct('\'', true));
    emit_word(out, "a");
    emit_punct(out, ',');
    emit_word(out, "_T");
    emit_punct(out, ':');
    emit_word(out, "reg");
    emit_joint(out, ':', ':');
    emit_word(out, "RegTag");
    emit_punct(out, '+');
    push_tok(out, Tok::Punct('\'', true));
    emit_word(out, "a");
    emit_punct(out, '>');
    emit_open(out, Delim::Brace);
    emit_word(out, "reg");
    emit_punct(out, ':');
    emit_punct(out, '&');
    push_tok(out, Tok::Punct('\'', true));
    emit_word(out, "a");
    emit_word(out, "self");
    emit_joint(out, ':', ':');
    emit_word(out, "Reg");
    emit_punct(out, '<');
    emit_word(out, "_T");
    emit_punct(out, '>');
    emit_punct(out, ',');
    emit_word(out, "val");
    emit_punct(out, ':');
    emit_word(out, "self");
    emit_joint(out, ':', ':');
    emit_word(out, "Val");
    emit_punct(out, ',');
    emit_close(out, Delim::Brace);
    emit_word(out, "impl");
    emit_punct(out, '<');
    push_tok(out, Tok::Punct('\'', true));
    proof {
        reveal(rmreg_hold_1);
    }
    assert(toks_view(out@) =~= b + rmreg_hold_1(toks@, mreg_view(*g), mreg_plan_view(*gp)));
}

/// A part of `rmreg_hold`.
#[verifier::opaque]
pub open spec fn rmreg_hold_2(toks: Seq<Tok>, g: MRegV, gp: MRegPlanV) -> Seq<TokV> {
    tw("a"@) + tp(',') + tw("_T"@) + tp('>') + tw("reg"@) + tj(':', ':') + tw("RegHold"@) + tp('<') + seq![TokV::Punct('\'', true)] + tw("a"@) + tp(',') + tw("_T"@) + tp(',') + tw("self"@) + tj(':', ':') + tw("Reg"@) + tp('<') + tw("_T"@) + tp('>') + tp('>') + tw("for"@) + tw("self"@) + tj(':', ':') + tw("Hold"@) + tp('<') + seq![TokV::Punct('\'', true)] + tw("a"@) + tp(',') + tw("_T"@) + tp('>') + tw("where"@) + tw("_T"@) + tp(':') + tw("reg"@) + tj(':', ':') + tw("RegTag"@) + tp(',') + topen(Delim::Brace) + tp('#') + topen(Delim::Bracket)
}

#[verifier::spinoff_prover]
#[verifier::rlimit(80)]
fn emit_rmreg_hold_2(toks: &Vec<Tok>, g: &MReg, gp: &MRegPlan, out: &mut Vec<Tok>)
    ensures
        toks_view(final(out)@) == toks_view(old(out)@) + rmreg_hold_2(toks@, mreg_view(*g), mreg_plan_view(*gp)),
{
    let ghost b = toks_view(old(out)@);
    emit_word(out, "a");
    emit_punct(out, ',');
    emit_word(out, "_T");
    emit_punct(out, '>');
    emit_word(out, "reg");
    emit_joint(out, ':', ':');
    emit_word(out, "RegHold");
    emit_punct(out, '<');
    push_tok(out, Tok::Punct('\'', true));
    emit_word(out, "a");
    emit_punct(out, ',');
    emit_word(out, "_T");
    emit_punct(out, ',');
    emit_word(out, "self");
    emit_joint(out, ':', ':');
    emit_word(out, "Reg");
    emit_punct(out, '<');
    emit_word(out, "_T");
    emit_punct(out, '>');
    emit_punct(out, '>');
    emit_word(out, "for");
    emit_word(out, "self");
    emit_joint(out, ':', ':');
    emit_word(out, "Hold");
    emit_punct(out, '<');
    push_tok(out, Tok::Punct('\'', true));
    emit_word(out, "a");
    emit_punct(out, ',');
    emit_word(out, "_T");
    emit_punct(out, '>');
    emit_word(out, "where");
    emit_word(out, "_T");
    emit_punct(out, ':');
    emit_word(out, "reg");
    emit_joint(out, ':', ':');
    emit_word(out, "RegTag");
    emit_punct(out, ',');
    emit_open(out, Delim::Brace);
    emit_punct(out, '#');
    emit_open(out, Delim::Bracket);
    proof {
        reveal(rmreg_hold_2);
    }
    assert(toks_view(out@) =~= b + rmreg_hold_2(toks@, mreg_view(*g), mreg_plan_view(*gp)));
}

/// A part of `rmreg_hold`.
#[verifier::opaque]
pub open spec fn rmreg_hold_3(toks: Seq<Tok>, g: MRegV, gp: MRegPlanV) -> Seq<TokV> {
    tw("inline"@) + topen(Delim::Paren) + tw("always"@) + tclose(Delim::Paren) + tclose(Delim::Bracket) + tw("unsafe"@) + tw("fn"@) + tw("new"@) + topen(Delim::Paren) + tw("reg"@) + tp(':') + tp('&') + seq![TokV::Punct('\'', true)] + tw("a"@) + tw("self"@) + tj(':', ':') + tw("Reg"@) + tp('<') + tw("_T"@) + tp('>') + tp(',') + tw("val"@) + tp(':') + tw("self"@) + tj(':', ':') + tw("Val"@) + tclose(Delim::Paren) + tj('-', '>') + tw("Self"@) + topen(Delim::Brace) + tw("Self"@) + topen(Delim::Brace) + tw("reg"@) + tp(',') + tw("val"@) + tclose(Delim::Brace) + tclose(Delim::Brace) + tp('#') + topen(Delim::Bracket) + tw("inline"@)
}

#[verifier::spinoff_prover]
#[verifier::rlimit(80)]
fn emit_rmreg_hold_3(toks: &Vec<Tok>, g: &MReg, gp: &MRegPlan, out: &mut Vec<Tok>)
    ensures
        toks_view(final(out)@) == toks_view(old(out)@) + rmreg_hold_3(toks@, mreg_view(*g), mreg_plan_view(*gp)),
{
    let ghost b = toks_view(old(out)@);
    emit_word(out, "inline");
    emit_open(out, Delim::Paren);
    emit_word(out, "always");
    emit_close(out, Delim::Paren);
    emit_close(out, Delim::Bracket);
    emit_word(out, "unsafe");
    emit_word(out, "fn");
    emit_word(out, "new");
    emit_open(out, Delim::Paren);
    emit_word(out, "reg");
    emit_punct(out, ':');
    emit_punct(out, '&');
    push_tok(out, Tok::Punct('\'', true));
    emit_word(out, "a");
    emit_word(out, "self");
    emit_joint(out, ':', ':');
    emit_word(out, "Reg");
    emit_punct(out, '<');
    emit_word(out, "_T");
    emit_punct(out, '>');
    emit_punct(out, ',');
    emit_word(out, "val");
    emit_punct(out, ':');
    emit_word(out, "self");
    emit_joint(out, ':', ':');
    emit_word(out, "Val");
    emit_close(out, Delim::Paren);
    emit_joint(out, '-', '>');
    emit_word(out, "Self");
    emit_open(out, Delim::Brace);
    emit_word(out, "Self");
    emit_open(out, Delim::Brace);
    emit_word(out, "reg");
    emit_punct(out, ',');
    emit_word(out, "val");
    emit_close(out, Delim::Brace);
    emit_close(out, Delim::Brace);
    emit_punct(out, '#');
    emit_open(out, Delim::Bracket);
    emit_word(out, "inline");
    proof {
        reveal(rmreg_hold_3);
    }
    assert(toks_view(out@) =~= b + rmreg_hold_3(toks@, mreg_view(*g), mreg_plan_view(*gp)));
}

/// A part of `rmreg_hold`.
#[verifier::opaque]
pub open spec fn rmreg_hold_4(toks: Seq<Tok>, g: MRegV, gp: MRegPlanV) -> Seq<TokV> {
    topen(Delim::Paren) + tw("always"@) + tclose(Delim::Paren) + tclose(Delim::Bracket) + tw("fn"@) + tw("val"@) + topen(Delim::Paren) + tp('&') + tw("self"@) + tclose(Delim::Paren) + tj('-', '>') + tw("self"@) + tj(':', ':') + tw("Val"@) + topen(Delim::Brace) + tw("self"@) + tp('.') + tw("val"@) + tclose(Delim::Brace) + tp('#') + topen(Delim::Bracket) + tw("inline"@) + topen(Delim::Paren) + tw("always"@) + tclose(Delim::Paren) + tclose(Delim::Bracket) + tw("fn"@) + tw("set_val"@) + topen(Delim::Paren) + tp('&') + tw("mut"@) + tw("self"@) + tp(',') + tw("val"@) + tp(':') + tw("self"@) + tj(':', ':') + tw("Val"@) + tclose(Delim::Paren) + topen(Delim::Brace)
}

#[verifier::spinoff_prover]
#[verifier::rlimit(80)]
fn emit_rmreg_hold_4(toks: &Vec<Tok>, g: &MReg, gp: &MRegPlan, out: &mut Vec<Tok>)
    ensures
        toks_view(final(out)@) == toks_view(old(out)@) + rmreg_hold_4(toks@, mreg_view(*g), mreg_plan_view(*gp)),
{
    let ghost b = toks_view(old(out)@);
    emit_open(out, Delim::Paren);
    emit_word(out, "always");
    emit_close(out, Delim::Paren);
    emit_close(out, Delim::Bracket);
    emit_word(out, "fn");
    emit_word(out, "val");
    emit_open(out, Delim::Paren);
    emit_punct(out, '&');
    emit_word(out, "self");
    emit_close(out, Delim::Paren);
    emit_joint(out, '-', '>');
    emit_word(out, "self");
    emit_joint(out, ':', ':');
    emit_word(out, "Val");
    emit_open(out, Delim::Brace);
    emit_word(out, "self");
    emit_punct(out, '.');
    emit_word(out, "val");
    emit_close(out, Delim::Brace);
    emit_punct(out, '#');
    emit_open(out, Delim::Bracket);
    emit_word(out, "inline");
    emit_open(out, Delim::Paren);
    emit_word(out, "always");
    emit_close(out, Delim::Paren);
    emit_close(out, Delim::Bracket);
    emit_word(out, "fn");
    emit_word(out, "set_val");
    emit_open(out, Delim::Paren);
    emit_punct(out, '&');
    emit_word(out, "mut");
    emit_word(out, "self");
    emit_punct(out, ',');
    emit_word(out, "val");
    emit_punct(out, ':');
    emit_word(out, "self");
    emit_joint(out, ':', ':');
    emit_word(out, "Val");
    emit_close(out, Delim::Paren);
    emit_open(out, Delim::Brace);
    proof {
        reveal(rmreg_hold_4);
    }
    assert(toks_view(out@) =~= b + rmreg_hold_4(toks@, mreg_view(*g), mreg_plan_view(*gp)));
}

/// A part of `rmreg_hold`.
#[verifier::opaque]
pub open spec fn rmreg_hold_5(toks: Seq<Tok>, g: MRegV, gp: MRegPlanV) -> Seq<TokV> {
    tw("self"@) + tp('.') + tw("val"@) + tp('=') + tw("val"@) + tp(';') + tclose(Delim::Brace) + tclose(Delim::Brace)
}

#[verifier::spinoff_prover]
#[verifier::rlimit(80)]
fn emit_rmreg_hold_5(toks: &Vec<Tok>, g: &MReg, gp: &MRegPlan, out: &mut Vec<Tok>)
    ensures
        toks_view(final(out)@) == toks_view(old(out)@) + rmreg_hold_5(toks@, mreg_view(*g), mreg_plan_view(*gp)),
{
    let ghost b = toks_view(old(out)@);
    emit_word(out, "self");
    emit_punct(out, '.');
    emit_word(out, "val");
    emit_punct(out, '=');
    emit_word(out, "val");
    emit_punct(out, ';');
    emit_close(out, Delim::Brace);
    emit_close(out, Delim::Brace);
    proof {
        reveal(rmreg_hold_5);
    }
    assert(toks_view(out@) =~= b + rmreg_hold_5(toks@, mreg_view(*g), mreg_plan_view(*gp)));
}

/// The holder of the register's value and its `RegHold`.
#[verifier::opaque]
pub open spec fn rmreg_hold(toks: Seq<Tok>, g: MRegV, gp: MRegPlanV) -> Seq<TokV> {
    rmreg_hold_1(toks, g, gp) + rmreg_hold_2(toks, g, gp) + rmreg_hold_3(toks, g, gp) + rmreg_hold_4(toks, g, gp) + rmreg_hold_5(toks, g, gp)
}

#[verifier::spinoff_prover]
#[verifier::rlimit(80)]
fn emit_rmreg_hold(toks: &Vec<Tok>, g: &MReg, gp: &MRegPlan, out: &mut Vec<Tok>)
    ensures
        toks_view(final(out)@) == toks_view(old(out)@) + rmreg_hold(toks@, mreg_view(*g), mreg_plan_view(*gp)),
{
    let ghost b = toks_view(old(out)@);
    emit_rmreg_hold_1(toks, g, gp, out);
    emit_rmreg_hold_2(toks, g, gp, out);
    emit_rmreg_hold_3(toks, g, gp, out);
    emit_rmreg_hold_4(toks, g, gp, out);
    emit_rmreg_hold_5(toks, g, gp, out);
    proof {
        reveal(rmreg_hold);
    }
    assert(toks_view(out@) =~= b + rmreg_hold(toks@, mreg_view(*g), mreg_plan_view(*gp)));
}

/// The register's value, closing the module.
#[verifier::opaque]
pub open spec fn rmreg_val(toks: Seq<Tok>, g: MRegV, gp: MRegPlanV) -> Seq<TokV> {
    pound_attrs(toks, g.attrs) + tp('#') + topen(Delim::Bracket) + tw("derive"@) + topen(Delim::Paren) + tw("Bitfield"@) + tp(',') + tw("Clone"@) + tp(',') + tw("Copy"@) + tclose(Delim::Paren) + tclose(Delim::Bracket) + tp('#') + topen(Delim::Bracket) + tw("bitfield"@) + topen(Delim::Paren) + tw("default"@) + tp('=') + tl(decimal(g.reset as nat)) + tclose(Delim::Paren) + tclose(Delim::Bracket) + tw("pub"@) + tw("struct"@) + tw("Val"@) + topen(Delim::Paren) + tw(gp.raw_ty) + tclose(Delim::Paren) + tp(';') + tclose(Delim::Brace)
}

#[verifier::spinoff_prover]
#[verifier::rlimit(80)]
fn emit_rmreg_val(toks: &Vec<Tok>, g: &MReg, gp: &MRegPlan, out: &mut Vec<Tok>)
    ensures
        toks_view(final(out)@) == toks_view(old(out)@) + rmreg_val(toks@, mreg_view(*g), mreg_plan_view(*gp)),
{
    let ghost b = toks_view(old(out)@);
    emit_pound_attrs(toks, &g.attrs, out);
    emit_punct(out, '#');
    emit_open(out, Delim::Bracket);
    emit_word(out, "derive");
    emit_open(out, Delim::Paren);
    emit_word(out, "Bitfield");
    emit_punct(out, ',');
    emit_word(out, "Clone");
    emit_punct(out, ',');
    emit_word(out, "Copy");
    emit_close(out, Delim::Paren);
    emit_close(out, Delim::Bracket);
    emit_punct(out, '#');
    emit_open(out, Delim::Bracket);
    emit_word(out, "bitfield");
    emit_open(out, Delim::Paren);
    emit_word(out, "default");
    emit_punct(out, '=');
    emit_decimal(out, g.reset);
    emit_close(out, Delim::Paren);
    emit_close(out, Delim::Bracket);
    emit_word(out, "pub");
    emit_word(out, "struct");
    emit_word(out, "Val");
    emit_open(out, Delim::Paren);
    emit_string(out, &gp.raw_ty);
    emit_close(out, Delim::Paren);
    emit_punct(out, ';');
    emit_close(out, Delim::Brace);
    proof {
        reveal(rmreg_val);
    }
    assert(toks_view(out@) =~= b + rmreg_val(toks@, mreg_view(*g), mreg_plan_view(*gp)));
}

/// The implementations of the traits `ts` for a field's token.
pub open spec fn rmfield_traits(toks: Seq<Tok>, f: MFieldV, fp: MFieldPlanV, raw: Seq<char>, ts: Seq<(Seq<Span>, usize)>) -> Seq<TokV>
    decreases ts.len(),
{
    if ts.len() == 0 {
        Seq::empty()
    } else {
        rmfield_traits(toks, f, fp, raw, ts.drop_last()) + rmfield_trait(toks, f, fp, raw, ts.last().0, ts.last().1)
    }
}

/// The accessors of a field that its width and its traits call for.
pub open spec fn rmfield_access(toks: Seq<Tok>, f: MFieldV, fp: MFieldPlanV, raw: Seq<char>) -> Seq<TokV> {
    if fp.bit {
        (if fp.read {
            rmfield_bit_read(toks, f, fp, raw)
        } else {
            Seq::empty()
        }) + (if fp.write {
            rmfield_bit_write(toks, f, fp, raw)
        } else {
            Seq::empty()
        })
    } else {
        (if fp.read {
            rmfield_bits_read(toks, f, fp, raw)
        } else {
            Seq::empty()
        }) + (if fp.write {
            rmfield_bits_write(toks, f, fp, raw)
        } else {
            Seq::empty()
        })
    }
}

/// The items of a field: its accessors, its token with its traits, and the
/// token's conversions.
pub open spec fn rmfield_items(toks: Seq<Tok>, f: MFieldV, fp: MFieldPlanV, raw: Seq<char>) -> Seq<TokV> {
    rmfield_access(toks, f, fp, raw) + rmfield_struct(toks, f, fp, raw) + rmfield_traits(toks, f, fp, raw, f.traits)
        + rmfield_width_trait(toks, f, fp, raw) + rmfield_tags(toks, f, fp, raw)
}

#[verifier::spinoff_prover]
#[verifier::rlimit(50)]
fn emit_rmfield_access(toks: &Vec<Tok>, f: &MField, fp: &MFieldPlan, raw: &String, out: &mut Vec<Tok>)
    ensures
        toks_view(final(out)@) == toks_view(old(out)@) + rmfield_access(toks@, mfield_view(*f), mfield_plan_view(*fp), raw@),
{
    let ghost b = toks_view(old(out)@);
    if fp.read {
        if fp.bit {
            emit_rmfield_bit_read(toks, f, fp, raw, out);
        } else {
            emit_rmfield_bits_read(toks, f, fp, raw, out);
        }
    }
    let ghost m = toks_view(out@);
    if fp.write {
        if fp.bit {
            emit_rmfield_bit_write(toks, f, fp, raw, out);
        } else {
            emit_rmfield_bits_write(toks, f, fp, raw, out);
        }
    }
    assert(toks_view(out@) =~= b + rmfield_access(toks@, mfield_view(*f), mfield_plan_view(*fp), raw@));
}

#[verifier::spinoff_prover]
#[verifier::rlimit(80)]
fn emit_rmfield_items(toks: &Vec<Tok>, f: &MField, fp: &MFieldPlan, raw: &String, out: &mut Vec<Tok>)
    ensures
        toks_view(final(out)@) == toks_view(old(out)@) + rmfield_items(toks@, mfield_view(*f), mfield_plan_view(*fp), raw@),
{
    let ghost b = toks_view(old(out)@);
    let ghost fv = mfield_view(*f);
    let ghost fpv = mfield_plan_view(*fp);
    emit_rmfield_access(toks, f, fp, raw, out);
    emit_rmfield_struct(toks, f, fp, raw, out);
    let ghost head = toks_view(out@);
    let ghost ts = fv.traits;
    let mut k: usize = 0;
    assert(ts.take(0) =~= Seq::<(Seq<Span>, usize)>::empty());
    assert(head + Seq::<TokV>::empty() =~= head);
    while k < f.traits.len()
        invariant
            k <= f.traits@.len(),
            fv == mfield_view(*f),
            fpv == mfield_plan_view(*fp),
            ts == fv.traits,
            ts.len() == f.traits@.len(),
            toks_view(out@) == head + rmfield_traits(toks@, fv, fpv, raw@, ts.take(k as int)),
        decreases f.traits@.len() - k,
    {
        let t = &f.traits[k];
        assert(ts[k as int] == (t.attrs@, t.ident));
        emit_rmfield_trait(toks, f, fp, raw, &t.attrs, t.ident, out);
        proof {
            let s = ts.take(k + 1);
            assert(s.drop_last() =~= ts.take(k as int));
            assert(s.last() == ts[k as int]);
            assert(toks_view(out@) =~= head + rmfield_traits(toks@, fv, fpv, raw@, s));
        }
        k = k + 1;
    }
    assert(ts.take(k as int) =~= ts);
    emit_rmfield_width_trait(toks, f, fp, raw, out);
    emit_rmfield_tags(toks, f, fp, raw, out);
    assert(toks_view(out@) =~= b + rmfield_items(toks@, fv, fpv, raw@));
}

/// The items of the first `k` fields of a register.
pub open spec fn rmfields_items(toks: Seq<Tok>, g: MRegV, gp: MRegPlanV, k: nat) -> Seq<TokV>
    decreases k,
{
    if k == 0 || k > g.fields.len() || k > gp.fields.len() {
        Seq::empty()
    } else {
        rmfields_items(toks, g, gp, (k - 1) as nat) + rmfield_items(toks, g.fields[k - 1], gp.fields[k - 1], gp.raw_ty)
    }
}

/// The first `k` fields of the register structure: `ATTRS pub FIELD:
/// self::FTY<T>,` each.
pub open spec fn rmreg_fields(toks: Seq<Tok>, g: MRegV, gp: MRegPlanV, k: nat) -> Seq<TokV>
    decreases k,
{
    if k == 0 || k > g.fields.len() || k > gp.fields.len() {
        Seq::empty()
    } else {
        let f = g.fields[k - 1];
        let fp = gp.fields[k - 1];
        rmreg_fields(toks, g, gp, (k - 1) as nat) + pound_attrs(toks, f.attrs) + tw("pub"@) + tw(fp.ident) + tp(
            ':',
        ) + tw("self"@) + tj(':', ':') + tw(fp.ty) + tp('<') + tw("_T"@) + tp('>') + tp(',')
    }
}

/// The implementations of the register's traits.
pub open spec fn rmreg_traits(toks: Seq<Tok>, ts: Seq<(Seq<Span>, usize)>) -> Seq<TokV>
    decreases ts.len(),
{
    if ts.len() == 0 {
        Seq::empty()
    } else {
        rmreg_traits(toks, ts.drop_last()) + rmreg_trait(toks, ts.last().1)
    }
}

/// What a register expands to.
pub open spec fn rmreg_items(toks: Seq<Tok>, g: MRegV, gp: MRegPlanV) -> Seq<TokV> {
    rmreg_head(toks, g, gp) + rmfields_items(toks, g, gp, g.fields.len()) + rmreg_struct_head(toks, g, gp)
        + rmreg_fields(toks, g, gp, g.fields.len()) + rmreg_impls(toks, g, gp) + rmreg_traits(toks, g.traits)
        + rmreg_froms(toks, g, gp) + rmreg_fork(toks, g, gp) + rmreg_hold(toks, g, gp) + rmreg_val(toks, g, gp)
}

proof fn lemma_rmplan_fields(toks: Seq<Tok>, block: usize, g: MReg, gp: MRegPlan, k: int)
    requires
        mreg_plan_view(gp) == reg_plan_by(toks, block, mreg_view(g), "RRRegField"@, "WWRegField"@),
        0 <= k < g.fields@.len(),
    ensures
        gp.fields@.len() == g.fields@.len(),
        mreg_view(g).fields[k] == mfield_view(g.fields@[k]),
        mreg_plan_view(gp).fields[k] == mfield_plan_view(gp.fields@[k]),
        mreg_view(g).fields.len() == g.fields@.len(),
        mreg_plan_view(gp).fields.len() == g.fields@.len(),
{
    assert(mreg_plan_view(gp).fields.len() == gp.fields@.len());
    assert(mreg_view(g).fields.len() == g.fields@.len());
}

#[verifier::spinoff_prover]
#[verifier::rlimit(80)]
fn emit_rmreg_items(toks: &Vec<Tok>, block: usize, g: &MReg, gp: &MRegPlan, out: &mut Vec<Tok>)
    requires
        mreg_plan_view(*gp) == reg_plan_by(toks@, block, mreg_view(*g), "RRRegField"@, "WWRegField"@),
    ensures
        toks_view(final(out)@) == toks_view(old(out)@) + rmreg_items(toks@, mreg_view(*g), mreg_plan_view(*gp)),
{
    let ghost b = toks_view(old(out)@);
    let ghost gv = mreg_view(*g);
    let ghost gpv = mreg_plan_view(*gp);
    assert(gpv.fields.len() == gp.fields@.len());
    assert(gv.fields.len() == g.fields@.len());
    emit_rmreg_head(toks, g, gp, out);
    let ghost h1 = toks_view(out@);
    let mut k: usize = 0;
    assert(h1 + Seq::<TokV>::empty() =~= h1);
    while k < g.fields.len()
        invariant
            k <= g.fields@.len(),
            gv == mreg_view(*g),
            gpv == mreg_plan_view(*gp),
            mreg_plan_view(*gp) == reg_plan_by(toks@, block, mreg_view(*g), "RRRegField"@, "WWRegField"@),
            gv.fields.len() == g.fields@.len(),
            gpv.fields.len() == gp.fields@.len(),
            toks_view(out@) == h1 + rmfields_items(toks@, gv, gpv, k as nat),
        decreases g.fields@.len() - k,
    {
        proof {
            lemma_rmplan_fields(toks@, block, *g, *gp, k as int);
        }
        emit_rmfield_items(toks, &g.fields[k], &gp.fields[k], &gp.raw_ty, out);
        assert(toks_view(out@) =~= h1 + rmfields_items(toks@, gv, gpv, (k + 1) as nat));
        k = k + 1;
    }
    emit_rmreg_struct_head(toks, g, gp, out);
    let ghost h2 = toks_view(out@);
    let mut k: usize = 0;
    assert(h2 + Seq::<TokV>::empty() =~= h2);
    while k < g.fields.len()
        invariant
            k <= g.fields@.len(),
            gv == mreg_view(*g),
            gpv == mreg_plan_view(*gp),
            mreg_plan_view(*gp) == reg_plan_by(toks@, block, mreg_view(*g), "RRRegField"@, "WWRegField"@),
            gv.fields.len() == g.fields@.len(),
            gpv.fields.len() == gp.fields@.len(),
            toks_view(out@) == h2 + rmreg_fields(toks@, gv, gpv, k as nat),
        decreases g.fields@.len() - k,
    {
        proof {
            lemma_rmplan_fields(toks@, block, *g, *gp, k as int);
        }
        let f = &g.fields[k];
        let fp = &gp.fields[k];
        emit_pound_attrs(toks, &f.attrs, out);
        emit_word(out, "pub");
        emit_string(out, &fp.ident);
        emit_punct(out, ':');
        emit_word(out, "self");
        emit_joint(out, ':', ':');
        emit_string(out, &fp.ty);
        emit_punct(out, '<');
        emit_word(out, "_T");
        emit_punct(out, '>');
        emit_punct(out, ',');
        assert(toks_view(out@) =~= h2 + rmreg_fields(toks@, gv, gpv, (k + 1) as nat));
        k = k + 1;
    }
    emit_rmreg_impls(toks, g, gp, out);
    let ghost h3 = toks_view(out@);
    let ghost ts = gv.traits;
    let mut j: usize = 0;
    assert(ts.take(0) =~= Seq::<(Seq<Span>, usize)>::empty());
    assert(h3 + Seq::<TokV>::empty() =~= h3);
    while j < g.traits.len()
        invariant
            j <= g.traits@.len(),
            gv == mreg_view(*g),
            ts == gv.traits,
            ts.len() == g.traits@.len(),
            toks_view(out@) == h3 + rmreg_traits(toks@, ts.take(j as int)),
        decreases g.traits@.len() - j,
    {
        let t = &g.traits[j];
        assert(ts[j as int] == (t.attrs@, t.ident));
        emit_rmreg_trait(toks, t.ident, out);
        proof {
            let s = ts.take(j + 1);
            assert(s.drop_last() =~= ts.take(j as int));
            assert(s.last() == ts[j as int]);
            assert(toks_view(out@) =~= h3 + rmreg_traits(toks@, s));
        }
        j = j + 1;
    }
    assert(ts.take(j as int) =~= ts);
    emit_rmreg_froms(toks, g, gp, out);
    emit_rmreg_fork(toks, g, gp, out);
    emit_rmreg_hold(toks, g, gp, out);
    emit_rmreg_val(toks, g, gp, out);
    assert(toks_view(out@) =~= b + rmreg_items(toks@, gv, gpv));
}

/// The items of the registers.
pub open spec fn rmregs_items(toks: Seq<Tok>, gs: Seq<MRegV>, gps: Seq<MRegPlanV>, k: nat) -> Seq<TokV>
    decreases k,
{
    if k == 0 || k > gs.len() || k > gps.len() {
        Seq::empty()
    } else {
        rmregs_items(toks, gs, gps, (k - 1) as nat) + rmreg_items(toks, gs[k - 1], gps[k - 1])
    }
}

/// `pub use self::MODULE::TY as ALIAS;` for each register.
pub open spec fn rmreg_aliases(module: Seq<char>, gps: Seq<MRegPlanV>) -> Seq<TokV>
    decreases gps.len(),
{
    if gps.len() == 0 {
        Seq::empty()
    } else {
        let gp = gps.last();
        rmreg_aliases(module, gps.drop_last()) + tw("pub"@) + tw("use"@) + tw("self"@) + tj(':', ':') + tw(module)
            + tj(':', ':') + tw(gp.ty) + tw("as"@) + tw(gp.alias) + tp(';')
    }
}

/// `FIELD: self::FTY { _tag: _T::default() }` for each field, separated by
/// commas.
pub open spec fn new_list(fs: Seq<MFieldPlanV>) -> Seq<TokV>
    decreases fs.len(),
{
    if fs.len() == 0 {
        Seq::empty()
    } else {
        let f = fs.last();
        new_list(fs.drop_last()) + (if fs.len() > 1 {
            tp(',')
        } else {
            Seq::empty()
        }) + tw(f.ident) + tp(':') + tw("self"@) + tj(':', ':') + tw(f.ty) + topen(Delim::Brace) + tw("_tag"@)
            + tp(':') + tw("_T"@) + tj(':', ':') + tw("default"@) + topen(Delim::Paren) + tclose(Delim::Paren)
            + tclose(Delim::Brace)
    }
}

fn emit_new_list(fs: &Vec<MFieldPlan>, out: &mut Vec<Tok>)
    ensures
        toks_view(final(out)@) == toks_view(old(out)@) + new_list(field_plans_view(fs@)),
{
    let ghost head = toks_view(old(out)@);
    let ghost v = field_plans_view(fs@);
    let mut k: usize = 0;
    assert(v.take(0) =~= Seq::<MFieldPlanV>::empty());
    assert(head + Seq::<TokV>::empty() =~= head);
    while k < fs.len()
        invariant
            k <= v.len(),
            v == field_plans_view(fs@),
            toks_view(out@) == head + new_list(v.take(k as int)),
        decreases v.len() - k,
    {
        let f = &fs[k];
        assert(v[k as int] == mfield_plan_view(*f));
        if k > 0 {
            emit_punct(out, ',');
        }
        emit_string(out, &f.ident);
        emit_punct(out, ':');
        emit_word(out, "self");
        emit_joint(out, ':', ':');
        emit_string(out, &f.ty);
        emit_open(out, Delim::Brace);
        emit_word(out, "_tag");
        emit_punct(out, ':');
        emit_word(out, "_T");
        emit_joint(out, ':', ':');
        emit_word(out, "default");
        emit_open(out, Delim::Paren);
        emit_close(out, Delim::Paren);
        emit_close(out, Delim::Brace);
        proof {
            let s = v.take(k + 1);
            assert(s.drop_last() =~= v.take(k as int));
            assert(s.last() == v[k as int]);
            assert(toks_view(out@) =~= head + new_list(s));
        }
        k = k + 1;
    }
    assert(v.take(k as int) =~= v);
}

/// What `reg_mappings!` expands to on the input `toks`: the block's module
/// with its registers, then an alias of each register outside it.
pub open spec fn spec_expand_reg_mappings(toks: Seq<Tok>) -> Result<Seq<TokV>, MacroError> {
    match spec_reg_mappings_input(toks) {
        Err(e) => Err(e),
        Ok(inp) => {
            let module = inflector_snake(ident_text(toks, inp.block as int));
            let gps = inp.regs.map_values(
                |g: MRegV| reg_plan_by(toks, inp.block, g, "RRRegField"@, "WWRegField"@),
            );
            Ok(
                pound_attrs(toks, inp.attrs) + tw("pub"@) + tw("mod"@) + tw(module) + topen(Delim::Brace)
                    + rmregs_items(toks, inp.regs, gps, inp.regs.len()) + tclose(Delim::Brace) + mreg_aliases(
                    module,
                    gps,
                ),
            )
        },
    }
}

/// The tokens that `reg_mappings!` expands to on the input `toks`.
#[verifier::spinoff_prover]
#[verifier::rlimit(80)]
pub fn expand_reg_mappings(toks: &Vec<Tok>) -> (r: Result<Vec<Tok>, MacroError>)
    ensures
        r matches Err(e) ==> spec_expand_reg_mappings(toks@) == Err::<Seq<TokV>, MacroError>(e),
        r matches Ok(v) ==> spec_expand_reg_mappings(toks@) == Ok::<Seq<TokV>, MacroError>(toks_view(v@)),
{
    let p = reg_mappings(toks)?;
    let ghost regs = p.regs@.map_values(|g: MReg| mreg_view(g));
    let ghost gps = regs.map_values(|g: MRegV| reg_plan_by(toks@, p.block, g, "RRRegField"@, "WWRegField"@));
    let ghost pv = p.plans@.map_values(|g: MRegPlan| mreg_plan_view(g));
    assert(pv == gps);
    assert(pv.len() == p.plans@.len());
    assert(regs.len() == p.regs@.len());
    let mut out: Vec<Tok> = Vec::new();
    assert(toks_view(out@) =~= Seq::<TokV>::empty());
    emit_pound_attrs(toks, &p.attrs, &mut out);
    emit_word(&mut out, "pub");
    emit_word(&mut out, "mod");
    emit_string(&mut out, &p.module);
    emit_open(&mut out, Delim::Brace);
    let ghost h = toks_view(out@);
    let mut k: usize = 0;
    assert(h + Seq::<TokV>::empty() =~= h);
    while k < p.regs.len()
        invariant
            k <= p.regs@.len(),
            regs == p.regs@.map_values(|g: MReg| mreg_view(g)),
            pv == p.plans@.map_values(|g: MRegPlan| mreg_plan_view(g)),
            pv == gps,
            gps == regs.map_values(|g: MRegV| reg_plan_by(toks@, p.block, g, "RRRegField"@, "WWRegField"@)),
            pv.len() == p.plans@.len(),
            regs.len() == p.regs@.len(),
            toks_view(out@) == h + rmregs_items(toks@, regs, gps, k as nat),
        decreases p.regs@.len() - k,
    {
        assert(pv[k as int] == mreg_plan_view(p.plans@[k as int]));
        assert(regs[k as int] == mreg_view(p.regs@[k as int]));
        emit_rmreg_items(toks, p.block, &p.regs[k], &p.plans[k], &mut out);
        assert(toks_view(out@) =~= h + rmregs_items(toks@, regs, gps, (k + 1) as nat));
        k = k + 1;
    }
    emit_close(&mut out, Delim::Brace);
    let ghost h2 = toks_view(out@);
    let mut j: usize = 0;
    assert(gps.take(0) =~= Seq::<MRegPlanV>::empty());
    assert(h2 + Seq::<TokV>::empty() =~= h2);
    while j < p.plans.len()
        invariant
            j <= p.plans@.len(),
            pv == p.plans@.map_values(|g: MRegPlan| mreg_plan_view(g)),
            pv == gps,
            pv.len() == p.plans@.len(),
            toks_view(out@) == h2 + mreg_aliases(p.module@, gps.take(j as int)),
        decreases p.plans@.len() - j,
    {
        let gp = &p.plans[j];
        assert(pv[j as int] == mreg_plan_view(*gp));
        emit_word(&mut out, "pub");
        emit_word(&mut out, "use");
        emit_word(&mut out, "self");
        emit_joint(&mut out, ':', ':');
        emit_string(&mut out, &p.module);
        emit_joint(&mut out, ':', ':');
        emit_string(&mut out, &gp.ty);
        emit_word(&mut out, "as");
        emit_string(&mut out, &gp.alias);
        emit_punct(&mut out, ';');
        proof {
            let s = gps.take(j + 1);
            assert(s.drop_last() =~= gps.take(j as int));
            assert(s.last() == gps[j as int]);
            assert(toks_view(out@) =~= h2 + mreg_aliases(p.module@, s));
        }
        j = j + 1;
    }
    assert(gps.take(j as int) =~= gps);
    Ok(out)
}

#[verifier::spinoff_prover]
#[verifier::rlimit(100)]
proof fn lemma_rmfield_bit_write_set_name_calls_set(toks: Seq<Tok>, f: MFieldV, fp: MFieldPlanV, raw: Seq<char>)
    ensures
        first_use_after(rmfield_bit_write(toks, f, fp, raw), fp.set_name, tw("reg"@) + tp('.') + tw(fp.ident) + tp('.'), "set"@),
{
    reveal(rmfield_bit_write);
    reveal(rmfield_bit_write_2);
    reveal_strlit("reg");
    reveal_strlit("mut");
    reveal_strlit("self");
    reveal_strlit("Self");
    let w0 = rmfield_bit_write_1(toks, f, fp, raw);
    let w1 = rmfield_bit_write_2(toks, f, fp, raw);
    let w2 = rmfield_bit_write_3(toks, f, fp, raw);
    let w3 = rmfield_bit_write_4(toks, f, fp, raw);
    let w4 = rmfield_bit_write_5(toks, f, fp, raw);
    assert(w1 =~= tw("fn"@) + tw(fp.set_name) + topen(Delim::Paren) + tp('&') + tw("mut"@) + tw("self"@) + tclose(Delim::Paren) + tj('-', '>') + tp('&') + tw("mut"@) + tw("Self"@) + topen(Delim::Brace) + tw("self"@) + tp('.') + tw("reg"@) + tp('.') + tw(fp.ident) + tp('.') + tw("set"@) + topen(Delim::Paren) + tp('&') + tw("mut"@) + tw("self"@) + tp('.') + tw("val"@) + tclose(Delim::Paren) + tp(';') + tw("self"@) + tclose(Delim::Brace) + pound_attrs(toks, f.attrs));
    let a = w0 + tw("fn"@);
    let b = topen(Delim::Paren) + tp('&') + tw("mut"@) + tw("self"@) + tclose(Delim::Paren) + tj('-', '>') + tp('&') + tw("mut"@) + tw("Self"@) + topen(Delim::Brace) + tw("self"@) + tp('.');
    let c = topen(Delim::Paren) + tp('&') + tw("mut"@) + tw("self"@) + tp('.') + tw("val"@) + tclose(Delim::Paren) + tp(';') + tw("self"@) + tclose(Delim::Brace) + pound_attrs(toks, f.attrs) + w2 + w3 + w4;
    let mk = tw("reg"@) + tp('.') + tw(fp.ident) + tp('.');
    let e = seq![TokV::Open(Delim::Paren), TokV::Punct('&', false), TokV::Ident("mut"@), TokV::Ident("self"@), TokV::Close(Delim::Paren), TokV::Punct('-', true), TokV::Punct('>', false), TokV::Punct('&', false), TokV::Ident("mut"@), TokV::Ident("Self"@), TokV::Open(Delim::Brace), TokV::Ident("self"@), TokV::Punct('.', false)];
    assert(b =~= e);
    assert("Self"@ != "reg"@) by { assert("Self"@.len() != "reg"@.len()); }
    assert("mut"@ != "reg"@) by { assert("mut"@[0] != "reg"@[0]); }
    assert("self"@ != "reg"@) by { assert("self"@.len() != "reg"@.len()); }
    assert(forall|k: int| 0 <= k < e.len() ==> e[k] != mk[0]);
    assert(!b.contains(mk[0]));
    assert(w0 + w1 + w2 + w3 + w4 =~= a + tw(fp.set_name) + b + mk + tw("set"@) + c);
    assert(rmfield_bit_write(toks, f, fp, raw) == w0 + w1 + w2 + w3 + w4);
}

#[verifier::spinoff_prover]
#[verifier::rlimit(100)]
proof fn lemma_rmfield_bit_write_clear_name_calls_clear(toks: Seq<Tok>, f: MFieldV, fp: MFieldPlanV, raw: Seq<char>)
    ensures
        first_use_after(rmfield_bit_write(toks, f, fp, raw), fp.clear_name, tw("reg"@) + tp('.') + tw(fp.ident) + tp('.'), "clear"@),
{
    reveal(rmfield_bit_write);
    reveal(rmfield_bit_write_3);
    reveal_strlit("reg");
    reveal_strlit("mut");
    reveal_strlit("self");
    reveal_strlit("Self");
    let w0 = rmfield_bit_write_1(toks, f, fp, raw);
    let w1 = rmfield_bit_write_2(toks, f, fp, raw);
    let w2 = rmfield_bit_write_3(toks, f, fp, raw);
    let w3 = rmfield_bit_write_4(toks, f, fp, raw);
    let w4 = rmfield_bit_write_5(toks, f, fp, raw);
    assert(w2 =~= tp('#') + topen(Delim::Bracket) + tw("inline"@) + topen(Delim::Paren) + tw("always"@) + tclose(Delim::Paren) + tclose(Delim::Bracket) + tw("pub"@) + tw("fn"@) + tw(fp.clear_name) + topen(Delim::Paren) + tp('&') + tw("mut"@) + tw("self"@) + tclose(Delim::Paren) + tj('-', '>') + tp('&') + tw("mut"@) + tw("Self"@) + topen(Delim::Brace) + tw("self"@) + tp('.') + tw("reg"@) + tp('.') + tw(fp.ident) + tp('.') + tw("clear"@) + topen(Delim::Paren) + tp('&') + tw("mut"@));
    let a = w0 + w1 + tp('#') + topen(Delim::Bracket) + tw("inline"@) + topen(Delim::Paren) + tw("always"@) + tclose(Delim::Paren) + tclose(Delim::Bracket) + tw("pub"@) + tw("fn"@);
    let b = topen(Delim::Paren) + tp('&') + tw("mut"@) + tw("self"@) + tclose(Delim::Paren) + tj('-', '>') + tp('&') + tw("mut"@) + tw("Self"@) + topen(Delim::Brace) + tw("self"@) + tp('.');
    let c = topen(Delim::Paren) + tp('&') + tw("mut"@) + w3 + w4;
    let mk = tw("reg"@) + tp('.') + tw(fp.ident) + tp('.');
    let e = seq![TokV::Open(Delim::Paren), TokV::Punct('&', false), TokV::Ident("mut"@), TokV::Ident("self"@), TokV::Close(Delim::Paren), TokV::Punct('-', true), TokV::Punct('>', false), TokV::Punct('&', false), TokV::Ident("mut"@), TokV::Ident("Self"@), TokV::Open(Delim::Brace), TokV::Ident("self"@), TokV::Punct('.', false)];
    assert(b =~= e);
    assert("Self"@ != "reg"@) by { assert("Self"@.len() != "reg"@.len()); }
    assert("mut"@ != "reg"@) by { assert("mut"@[0] != "reg"@[0]); }
    assert("self"@ != "reg"@) by { assert("self"@.len() != "reg"@.len()); }
    assert(forall|k: int| 0 <= k < e.len() ==> e[k] != mk[0]);
    assert(!b.contains(mk[0]));
    assert(w0 + w1 + w2 + w3 + w4 =~= a + tw(fp.clear_name) + b + mk + tw("clear"@) + c);
    assert(rmfield_bit_write(toks, f, fp, raw) == w0 + w1 + w2 + w3 + w4);
}

#[verifier::spinoff_prover]
#[verifier::rlimit(100)]
proof fn lemma_rmfield_bit_write_toggle_name_calls_toggle(toks: Seq<Tok>, f: MFieldV, fp: MFieldPlanV, raw: Seq<char>)
    ensures
        first_use_after(rmfield_bit_write(toks, f, fp, raw), fp.toggle_name, tw("reg"@) + tp('.') + tw(fp.ident) + tp('.'), "toggle"@),
{
    reveal(rmfield_bit_write);
    reveal(rmfield_bit_write_4);
    reveal(rmfield_bit_write_5);
    reveal_strlit("reg");
    reveal_strlit("mut");
    reveal_strlit("self");
    reveal_strlit("Self");
    let w0 = rmfield_bit_write_1(toks, f, fp, raw);
    let w1 = rmfield_bit_write_2(toks, f, fp, raw);
    let w2 = rmfield_bit_write_3(toks, f, fp, raw);
    let w3 = rmfield_bit_write_4(toks, f, fp, raw);
    let w4 = rmfield_bit_write_5(toks, f, fp, raw);
    assert(w3 =~= tw("self"@) + tp('.') + tw("val"@) + tclose(Delim::Paren) + tp(';') + tw("self"@) + tclose(Delim::Brace) + pound_attrs(toks, f.attrs) + tp('#') + topen(Delim::Bracket) + tw("inline"@) + topen(Delim::Paren) + tw("always"@) + tclose(Delim::Paren) + tclose(Delim::Bracket) + tw("pub"@) + tw("fn"@) + tw(fp.toggle_name) + topen(Delim::Paren) + tp('&') + tw("mut"@) + tw("self"@) + tclose(Delim::Paren) + tj('-', '>') + tp('&') + tw("mut"@) + tw("Self"@) + topen(Delim::Brace) + tw("self"@) + tp('.'));
    assert(w4 =~= tw("reg"@) + tp('.') + tw(fp.ident) + tp('.') + tw("toggle"@) + topen(Delim::Paren) + tp('&') + tw("mut"@) + tw("self"@) + tp('.') + tw("val"@) + tclose(Delim::Paren) + tp(';') + tw("self"@) + tclose(Delim::Brace) + tclose(Delim::Brace));
    let a = w0 + w1 + w2 + tw("self"@) + tp('.') + tw("val"@) + tclose(Delim::Paren) + tp(';') + tw("self"@) + tclose(Delim::Brace) + pound_attrs(toks, f.attrs) + tp('#') + topen(Delim::Bracket) + tw("inline"@) + topen(Delim::Paren) + tw("always"@) + tclose(Delim::Paren) + tclose(Delim::Bracket) + tw("pub"@) + tw("fn"@);
    let b = topen(Delim::Paren) + tp('&') + tw("mut"@) + tw("self"@) + tclose(Delim::Paren) + tj('-', '>') + tp('&') + tw("mut"@) + tw("Self"@) + topen(Delim::Brace) + tw("self"@) + tp('.');
    let c = topen(Delim::Paren) + tp('&') + tw("mut"@) + tw("self"@) + tp('.') + tw("val"@) + tclose(Delim::Paren) + tp(';') + tw("self"@) + tclose(Delim::Brace) + tclose(Delim::Brace);
    let mk = tw("reg"@) + tp('.') + tw(fp.ident) + tp('.');
    let e = seq![TokV::Open(Delim::Paren), TokV::Punct('&', false), TokV::Ident("mut"@), TokV::Ident("self"@), TokV::Close(Delim::Paren), TokV::Punct('-', true), TokV::Punct('>', false), TokV::Punct('&', false), TokV::Ident("mut"@), TokV::Ident("Self"@), TokV::Open(Delim::Brace), TokV::Ident("self"@), TokV::Punct('.', false)];
    assert(b =~= e);
    assert("Self"@ != "reg"@) by { assert("Self"@.len() != "reg"@.len()); }
    assert("mut"@ != "reg"@) by { assert("mut"@[0] != "reg"@[0]); }
    assert("self"@ != "reg"@) by { assert("self"@.len() != "reg"@.len()); }
    assert(forall|k: int| 0 <= k < e.len() ==> e[k] != mk[0]);
    assert(!b.contains(mk[0]));
    assert(w0 + w1 + w2 + w3 + w4 =~= a + tw(fp.toggle_name) + b + mk + tw("toggle"@) + c);
    assert(rmfield_bit_write(toks, f, fp, raw) == w0 + w1 + w2 + w3 + w4);
}

/// The writers of a one-bit field do what their names say: `set_NAME` calls
/// `self.reg.FIELD.set`, `clear_NAME` calls `clear` and `toggle_NAME` calls
/// `toggle`.
pub proof fn law_reg_mapped_bit_writers_call_their_operation(toks: Seq<Tok>, f: MFieldV, fp: MFieldPlanV, raw: Seq<char>)
    ensures
        first_use_after(rmfield_bit_write(toks, f, fp, raw), fp.set_name, tw("reg"@) + tp('.') + tw(fp.ident) + tp('.'), "set"@),
        first_use_after(rmfield_bit_write(toks, f, fp, raw), fp.clear_name, tw("reg"@) + tp('.') + tw(fp.ident) + tp('.'), "clear"@),
        first_use_after(rmfield_bit_write(toks, f, fp, raw), fp.toggle_name, tw("reg"@) + tp('.') + tw(fp.ident) + tp('.'), "toggle"@),
{
    lemma_rmfield_bit_write_set_name_calls_set(toks, f, fp, raw);
    lemma_rmfield_bit_write_clear_name_calls_clear(toks, f, fp, raw);
    lemma_rmfield_bit_write_toggle_name_calls_toggle(toks, f, fp, raw);
}

/// The reader of a one-bit field, named as the field, calls the
/// register's `read` of that field.
#[verifier::spinoff_prover]
#[verifier::rlimit(100)]
pub proof fn law_rmfield_bit_read_reads_its_field(toks: Seq<Tok>, f: MFieldV, fp: MFieldPlanV, raw: Seq<char>)
    ensures
        first_use_after(rmfield_bit_read(toks, f, fp, raw), fp.ident, tw("reg"@) + tp('.') + tw(fp.ident) + tp('.'), "read"@),
{
    reveal(rmfield_bit_read);
    reveal(rmfield_bit_read_2);
    reveal_strlit("reg");
    reveal_strlit("self");
    reveal_strlit("bool");
    let w0 = rmfield_bit_read_1(toks, f, fp, raw);
    let w1 = rmfield_bit_read_2(toks, f, fp, raw);
    assert(w1 =~= tw("fn"@) + tw(fp.ident) + topen(Delim::Paren) + tp('&') + tw("self"@) + tclose(Delim::Paren) + tj('-', '>') + tw("bool"@) + topen(Delim::Brace) + tw("self"@) + tp('.') + tw("reg"@) + tp('.') + tw(fp.ident) + tp('.') + tw("read"@) + topen(Delim::Paren) + tp('&') + tw("self"@) + tp('.') + tw("val"@) + tclose(Delim::Paren) + tclose(Delim::Brace) + tclose(Delim::Brace));
    let a = w0 + tw("fn"@);
    let b = topen(Delim::Paren) + tp('&') + tw("self"@) + tclose(Delim::Paren) + tj('-', '>') + tw("bool"@) + topen(Delim::Brace) + tw("self"@) + tp('.');
    let c = topen(Delim::Paren) + tp('&') + tw("self"@) + tp('.') + tw("val"@) + tclose(Delim::Paren) + tclose(Delim::Brace) + tclose(Delim::Brace);
    let mk = tw("reg"@) + tp('.') + tw(fp.ident) + tp('.');
    let e = seq![TokV::Open(Delim::Paren), TokV::Punct('&', false), TokV::Ident("self"@), TokV::Close(Delim::Paren), TokV::Punct('-', true), TokV::Punct('>', false), TokV::Ident("bool"@), TokV::Open(Delim::Brace), TokV::Ident("self"@), TokV::Punct('.', false)];
    assert(b =~= e);
    assert("bool"@ != "reg"@) by { assert("bool"@.len() != "reg"@.len()); }
    assert("self"@ != "reg"@) by { assert("self"@.len() != "reg"@.len()); }
    assert(forall|k: int| 0 <= k < e.len() ==> e[k] != mk[0]);
    assert(!b.contains(mk[0]));
    assert(w0 + w1 =~= a + tw(fp.ident) + b + mk + tw("read"@) + c);
    assert(rmfield_bit_read(toks, f, fp, raw) == w0 + w1);
}

} // verus!
