use drone_macros::bitfield::{derive_bitfield, AccessorKind, Mode, BITFIELD_ONLY_TUPLE};
use drone_macros::bitfield_meta::MetaErrorKind;
use drone_macros::case::{
    decimal_u64, decimal_u8, decimal_usize, to_pascal_inflector, to_screaming_inflector,
    to_shouty_snake_heck, to_snake_heck, to_snake_inflector, to_upper_camel_heck,
    unkeywordize_exec,
};
use drone_macros::heap::{heap, heap_inline, HeapForm, HeapLayout, HeapPlan, LayoutConfig};
use drone_macros::reg::reg;
use drone_macros::reg_expansion::expand_reg;
use drone_macros::token::{
    find_close, parse_vis, read_int_lit, Delim, ErrorKind, IntLit, MacroError, Span, Tok, Vis,
    VisKind,
};
use proc_macro2::{Delimiter, Spacing, TokenStream, TokenTree};
use std::str::FromStr;

fn flatten(ts: TokenStream, out: &mut Vec<Tok>) {
    for tt in ts {
        match tt {
            TokenTree::Ident(i) => out.push(Tok::Ident(i.to_string())),
            TokenTree::Punct(p) => out.push(Tok::Punct(p.as_char(), p.spacing() == Spacing::Joint)),
            TokenTree::Literal(l) => out.push(Tok::Literal(l.to_string())),
            TokenTree::Group(g) => {
                let d = match g.delimiter() {
                    Delimiter::Parenthesis => Delim::Paren,
                    Delimiter::Brace => Delim::Brace,
                    Delimiter::Bracket => Delim::Bracket,
                    Delimiter::None => Delim::Invisible,
                };
                out.push(Tok::Open(d));
                flatten(g.stream(), out);
                out.push(Tok::Close(d));
            }
        }
    }
}

fn toks(s: &str) -> Vec<Tok> {
    let mut v = Vec::new();
    flatten(TokenStream::from_str(s).unwrap(), &mut v);
    v
}

fn text(t: &[Tok], i: usize) -> String {
    match &t[i] {
        Tok::Ident(s) | Tok::Literal(s) => s.clone(),
        Tok::Punct(c, _) => c.to_string(),
        Tok::Open(d) => match d {
            Delim::Paren => "(".to_string(),
            Delim::Brace => "{".to_string(),
            Delim::Bracket => "[".to_string(),
            Delim::Invisible => String::new(),
        },
        Tok::Close(d) => match d {
            Delim::Paren => ")".to_string(),
            Delim::Brace => "}".to_string(),
            Delim::Bracket => "]".to_string(),
            Delim::Invisible => String::new(),
        },
    }
}

fn span_text(t: &[Tok], s: Span) -> String {
    (s.start..s.end).map(|i| text(t, i)).collect::<Vec<_>>().join(" ")
}

#[test]
fn int_literals_are_read_with_base_underscores_and_suffix() {
    assert_eq!(read_int_lit(&"0x1F".to_string()), IntLit::Value(31));
    assert_eq!(read_int_lit(&"1_000u32".to_string()), IntLit::Value(1000));
    assert_eq!(read_int_lit(&"0b101".to_string()), IntLit::Value(5));
    assert_eq!(read_int_lit(&"0o17".to_string()), IntLit::Value(15));
    assert_eq!(read_int_lit(&"1.5".to_string()), IntLit::NotInt);
    assert_eq!(read_int_lit(&"\"1\"".to_string()), IntLit::NotInt);
    assert_eq!(read_int_lit(&"99999999999999999999999".to_string()), IntLit::Huge);
}

#[test]
fn groups_close_at_their_matching_token() {
    let t = toks("(a [b] c)");
    assert_eq!(t.len(), 7);
    assert_eq!(find_close(&t, 0, 7), Some(6));
    assert_eq!(find_close(&t, 2, 7), Some(4));
    assert_eq!(find_close(&t, 2, 4), None);
}

#[test]
fn visibilities_are_read() {
    let t = toks("pub(crate) struct");
    assert_eq!(parse_vis(&t, 0, t.len()), Vis { kind: VisKind::Restricted, span: Span { start: 0, end: 4 } });
    let t = toks("pub struct");
    assert_eq!(parse_vis(&t, 0, t.len()), Vis { kind: VisKind::Public, span: Span { start: 0, end: 1 } });
    let t = toks("crate fn");
    assert_eq!(parse_vis(&t, 0, t.len()), Vis { kind: VisKind::Crate, span: Span { start: 0, end: 1 } });
    let t = toks("struct");
    assert_eq!(parse_vis(&t, 0, t.len()), Vis { kind: VisKind::Inherited, span: Span { start: 0, end: 0 } });
}

#[test]
fn case_conversions_of_the_outside_crates() {
    assert_eq!(to_snake_heck("FooBar"), "foo_bar");
    assert_eq!(to_shouty_snake_heck("main"), "MAIN");
    assert_eq!(to_upper_camel_heck("foo_bar"), "FooBar");
    assert_eq!(to_upper_camel_heck("PLLCFGR"), "Pllcfgr");
    assert_eq!(to_snake_inflector("FooBar"), "foo_bar");
    assert_eq!(to_pascal_inflector("foo_bar"), "FooBar");
    assert_eq!(to_screaming_inflector("fooBar"), "FOO_BAR");
}

#[test]
fn reserved_words_get_an_underscore() {
    assert_eq!(unkeywordize_exec(&"mod".to_string()), "mod_");
    assert_eq!(unkeywordize_exec(&"Self".to_string()), "Self_");
    assert_eq!(unkeywordize_exec(&"try".to_string()), "try_");
    assert_eq!(unkeywordize_exec(&"fn_".to_string()), "fn_");
    assert_eq!(unkeywordize_exec(&"foo".to_string()), "foo");
}

#[test]
fn decimal_notation() {
    assert_eq!(decimal_u8(0), "0");
    assert_eq!(decimal_u8(7), "7");
    assert_eq!(decimal_u8(42), "42");
    assert_eq!(decimal_u8(255), "255");
    assert_eq!(decimal_usize(1024), "1024");
    assert_eq!(decimal_u64(u64::MAX), "18446744073709551615");
}

#[test]
fn modes_read_and_write() {
    assert!(Mode::Read.is_read());
    assert!(!Mode::Read.is_write());
    assert!(Mode::ReadWrite.is_read());
    assert!(Mode::ReadWrite.is_write());
    assert!(!Mode::Write.is_read());
    assert!(Mode::Write.is_write());
}

#[test]
fn bitfield_accessors_follow_width_and_mode() {
    let t = toks(
        r#"#[bitfield(foo(rw, 0), bar(r, 1, 4, "Bar doc"), baz(w, 5, 1))] #[repr(C)] pub struct Reg(u32);"#,
    );
    let p = derive_bitfield(&t).unwrap();
    assert_eq!(text(&t, p.ident), "Reg");
    assert_eq!(span_text(&t, p.bits), "u32");
    assert_eq!(p.fields.len(), 3);
    let acc: Vec<(AccessorKind, String, usize)> =
        p.accessors.iter().map(|a| (a.kind, a.name.clone(), a.field)).collect();
    assert_eq!(
        acc,
        vec![
            (AccessorKind::ReadBit, "foo".to_string(), 0),
            (AccessorKind::SetBit, "set_foo".to_string(), 0),
            (AccessorKind::ClearBit, "clear_foo".to_string(), 0),
            (AccessorKind::ToggleBit, "toggle_foo".to_string(), 0),
            (AccessorKind::ReadBits, "bar".to_string(), 1),
            (AccessorKind::SetBit, "set_baz".to_string(), 2),
            (AccessorKind::ClearBit, "clear_baz".to_string(), 2),
            (AccessorKind::ToggleBit, "toggle_baz".to_string(), 2),
        ]
    );
    let doc = p.fields[1].doc.unwrap();
    assert_eq!(text(&t, doc), "\"Bar doc\"");
}

#[test]
fn bitfield_without_attribute_has_no_accessors() {
    let t = toks("struct A(u8);");
    let p = derive_bitfield(&t).unwrap();
    assert!(p.accessors.is_empty());
    assert_eq!(span_text(&t, p.bits), "u8");
}

#[test]
fn bitfield_rejects_a_struct_with_named_fields() {
    let t = toks("struct A { x: u32 }");
    assert_eq!(
        derive_bitfield(&t).unwrap_err(),
        MacroError { at: 0, kind: ErrorKind::Invalid(BITFIELD_ONLY_TUPLE) }
    );
}

#[test]
fn bitfield_rejects_an_unknown_mode() {
    let t = toks("#[bitfield(foo(x, 0))] struct A(u32);");
    assert_eq!(derive_bitfield(&t).unwrap_err().kind, ErrorKind::InvalidMode);
}

#[test]
fn meta_bitfield_reports_and_skips_invalid_fields() {
    let t = toks(
        r#"#[bitfield(default = 0x10, foo(rw, 0), bar(r, 1, 3), baz(w, 4, "Baz"), bad(rw), qux(q, 1))] struct A(u32);"#,
    );
    let p = drone_macros::bitfield_meta::derive(&t);
    let (ident, bits) = p.item.unwrap();
    assert_eq!(text(&t, ident), "A");
    assert_eq!(span_text(&t, bits), "u32");
    assert_eq!(text(&t, p.default.unwrap()), "0x10");
    let names: Vec<String> = p.fields.iter().map(|f| text(&t, f.ident)).collect();
    assert_eq!(names, vec!["foo", "bar", "baz"]);
    assert_eq!(p.fields[1].width, Some(3));
    assert_eq!(p.fields[2].offset, 4);
    assert!(p.fields[2].doc.is_some());
    assert_eq!(p.errors.len(), 2);
    assert!(p.errors.iter().all(|e| e.attr == 0 && e.kind == MetaErrorKind::InvalidAttr));
    let acc: Vec<String> = p.accessors.iter().map(|a| a.name.clone()).collect();
    assert_eq!(acc, vec!["foo", "set_foo", "clear_foo", "toggle_foo", "bar", "set_baz", "clear_baz", "toggle_baz"]);
}

#[test]
fn meta_bitfield_reports_a_second_default() {
    let t = toks("#[bitfield(default = 1)] #[bitfield(default = 2)] struct A(u8);");
    let p = drone_macros::bitfield_meta::derive(&t);
    assert_eq!(text(&t, p.default.unwrap()), "1");
    assert_eq!(p.errors.len(), 1);
    assert_eq!(p.errors[0].attr, 9);
    assert_eq!(p.errors[0].kind, MetaErrorKind::DuplicateDefault);
}

#[test]
fn meta_bitfield_rejects_a_word_attribute_and_a_trailing_comma() {
    let t = toks("#[bitfield] struct A(u8,);");
    let p = drone_macros::bitfield_meta::derive(&t);
    assert!(p.item.is_none());
    assert_eq!(p.errors.len(), 1);
    assert_eq!(p.errors[0].kind, MetaErrorKind::InvalidAttr);
}

fn layouts() -> LayoutConfig {
    LayoutConfig::Read(vec![
        HeapLayout { name: "main".to_string(), pools: 4 },
        HeapLayout { name: "extra".to_string(), pools: 2 },
    ])
}

fn layout_form(f: HeapForm) -> HeapPlan {
    match f {
        HeapForm::Layout(p) => p,
        HeapForm::Inline(p) => panic!("inline form: {:?}", p),
    }
}

#[test]
fn heap_names_its_symbols_after_the_layout() {
    let t = toks(
        "layout => extra; metadata => pub HeapMeta; #[global_allocator] instance => pub HEAP; enable_trace_stream => 31",
    );
    let p = layout_form(heap(&t, &layouts()).unwrap());
    assert_eq!(p.pools, 2);
    assert_eq!(p.section, ".heap_extra_rt");
    assert_eq!(p.rt_load, "HEAP_EXTRA_RT_LOAD");
    assert_eq!(p.rt_base, "HEAP_EXTRA_RT_BASE");
    assert_eq!(p.rt_end, "HEAP_EXTRA_RT_END");
    assert!(p.global_alloc);
    assert_eq!(text(&t, p.input.trace_stream.unwrap()), "31");
}

#[test]
fn heap_without_global_allocator() {
    let t = toks("layout => main; metadata => HeapMeta; instance => HEAP");
    let p = layout_form(heap(&t, &layouts()).unwrap());
    assert_eq!(p.pools, 4);
    assert!(!p.global_alloc);
    assert!(p.input.trace_stream.is_none());
}

#[test]
fn heap_errors() {
    let t = toks("layout => main; metadata => HeapMeta");
    assert_eq!(heap(&t, &layouts()).unwrap_err().kind, ErrorKind::MissingKey("instance"));
    let t = toks("layout => main; layout => main");
    assert_eq!(heap(&t, &layouts()).unwrap_err().kind, ErrorKind::MultipleKey("layout"));
    let t = toks("pools => 1");
    assert_eq!(heap(&t, &layouts()).unwrap_err().kind, ErrorKind::UnknownKey);
    let t = toks("size => 1");
    assert_eq!(heap(&t, &layouts()).unwrap_err(), MacroError { at: 2, kind: ErrorKind::ExpectedIntLit });
    let t = toks("layout => main; metadata => HeapMeta; instance => HEAP");
    assert_eq!(
        heap(&t, &LayoutConfig::Unreadable).unwrap_err().kind,
        ErrorKind::Invalid("the layout could not be read")
    );
    let t = toks("layout => other; metadata => HeapMeta; instance => HEAP");
    assert_eq!(
        heap(&t, &layouts()).unwrap_err(),
        MacroError { at: 3, kind: ErrorKind::Invalid("no such heap in the layout") }
    );
    let t = toks("enable_trace_stream => x");
    assert_eq!(heap(&t, &layouts()).unwrap_err().kind, ErrorKind::ExpectedIntLit);
}

const REG_INPUT: &str = "
    /// The control register.
    pub RCC CR => {
        address => 0x4002_1000;
        size => 32;
        reset => 0x0000_0083;
        traits => { RReg WReg };
        fields => {
            HSION => { offset => 0; width => 1; traits => { RRRegField WWRegField } };
            HSITRIM => { offset => 3; width => 5; traits => { RRRegField WWRegField } };
            #[cfg(feature = \"x\")]
            VAL => { offset => 8; width => 8; traits => { RRRegField RReg } }
        };
    };
    pub RCC CR2 => { address => 0x4002_1004; size => 16; reset => 0; traits => { RReg }; fields => {} };
    pub RCC CR3 => { address => 0x4002_1008; size => 8; reset => 0; }
";

#[test]
fn reg_plans_each_variant() {
    let t = toks(REG_INPUT);
    let p = reg(&t).unwrap();
    assert_eq!(p.plans.len(), 3);
    let v = &p.plans[0];
    assert_eq!(v.reg_full, "rcc_cr");
    assert_eq!(v.val_ty, "u32");
    let imports: Vec<String> = v.imports.iter().map(|&i| text(&t, i)).collect();
    assert_eq!(imports, vec!["RReg", "WReg", "RRRegField", "WWRegField"]);
    assert_eq!(v.fields.len(), 3);
    let f = &v.fields[0];
    assert_eq!(f.snk, "hsion");
    assert_eq!(f.psc, "Hsion");
    assert!(f.bit && f.read && f.write);
    assert_eq!(f.set_name, "set_hsion");
    assert_eq!(f.toggle_name, "toggle_hsion");
    let f = &v.fields[1];
    assert!(!f.bit);
    assert_eq!(f.write_name, "write_hsitrim");
    let f = &v.fields[2];
    assert_eq!(f.psc, "Val_");
    assert_eq!(f.cfg_attrs.len(), 1);
    assert!(f.read && !f.write);
    assert_eq!(p.plans[1].val_ty, "u16");
    assert_eq!(p.plans[2].reg_full, "rcc_cr3");
    assert_eq!(p.plans[2].val_ty, "u8");
}

#[test]
fn reg_converts_between_every_two_variants() {
    let t = toks(REG_INPUT);
    let p = reg(&t).unwrap();
    let pairs: Vec<(usize, usize)> = p.conversions.iter().map(|c| (c.src, c.dst)).collect();
    assert_eq!(pairs, vec![(0, 1), (0, 2), (1, 0), (1, 2), (2, 0), (2, 1)]);
    assert_eq!(p.conversions[0].name, "into_rcc_cr2");
    assert_eq!(
        p.conversions[0].doc,
        "Converts the token of variant `rcc_cr`, to a token of variant `rcc_cr2`."
    );
}

#[test]
fn reg_errors() {
    let t = toks("pub RCC CR => { size => 32; reset => 0; }");
    assert_eq!(reg(&t).unwrap_err().kind, ErrorKind::MissingKey("address"));
    let t = toks("pub RCC CR => { address => 0; address => 1; }");
    assert_eq!(reg(&t).unwrap_err().kind, ErrorKind::MultipleKey("address"));
    let t = toks("pub RCC CR => { address => 0; size => 300; reset => 0 }");
    assert_eq!(reg(&t).unwrap_err().kind, ErrorKind::IntOverflow);
    let t = toks("pub RCC CR => { colour => 0 }");
    assert_eq!(reg(&t).unwrap_err().kind, ErrorKind::UnknownKey);
    let t = toks("pub RCC CR { }");
    assert_eq!(reg(&t).unwrap_err().kind, ErrorKind::ExpectedPunct2('=', '>'));
    let t = toks("pub RCC CR => [ ]");
    assert_eq!(reg(&t).unwrap_err().kind, ErrorKind::ExpectedGroup(Delim::Brace));
}

#[test]
fn heap_inline_form_of_the_run_pass_test() {
    let t = toks(
        "//! Test doc attribute\n#![doc = \"test attribute\"]\nsize = 4096;\npools = [\n[0x4; 512],\n[0x10; 128],\n];",
    );
    let h = heap_inline(&t).unwrap();
    assert_eq!(h.attrs.len(), 2);
    assert_eq!(text(&t, h.size), "4096");
    let pools: Vec<_> = h.pools.iter().map(|&(b, c)| (text(&t, b), text(&t, c))).collect();
    assert_eq!(
        pools,
        vec![("0x4".to_string(), "512".to_string()), ("0x10".to_string(), "128".to_string())]
    );
    match heap(&t, &LayoutConfig::Unreadable).unwrap() {
        HeapForm::Inline(p) => {
            assert_eq!(p.size, 4096);
            assert_eq!(p.pools, vec![(4, 512), (16, 128)]);
            assert_eq!(p.heap.attrs.len(), 2);
        }
        HeapForm::Layout(p) => panic!("layout form: {:?}", p),
    }
    let t = toks("size = 4096; pools = [[0x4; 99999999999999999999999]];");
    assert_eq!(heap(&t, &layouts()).unwrap_err(), MacroError { at: 10, kind: ErrorKind::IntOverflow });
    let t = toks("size = 4096; pools = [[0x4; 512] [0x10; 128]];");
    assert_eq!(heap_inline(&t).unwrap_err(), MacroError { at: 12, kind: ErrorKind::ExpectedPunct(',') });
    let t = toks("size = 4096;");
    assert_eq!(heap_inline(&t).unwrap_err(), MacroError { at: 4, kind: ErrorKind::ExpectedKeyword("pools") });
    assert_eq!(heap_inline(&toks("pools = [];")).unwrap_err(), MacroError { at: 0, kind: ErrorKind::ExpectedKeyword("size") });
}

fn joined_toks(v: &[Tok]) -> String {
    (0..v.len()).map(|i| text(v, i)).collect::<Vec<_>>().join(" ")
}

#[test]
fn reg_expands_to_a_module_per_variant() {
    let t = toks("pub RCC CR3 => { address => 0x4002_1008; size => 8; reset => 0; traits => { RReg }; fields => { HSION => { offset => 0; width => 1; traits => { RRRegField } } } }");
    let out = joined_toks(&expand_reg(&t).unwrap());
    assert!(out.starts_with("pub mod rcc_cr3 { use super : : { RReg , RRRegField } ; use : : drone_core : : bitfield : : Bitfield ; \
# [ derive ( Bitfield , Clone , Copy ) ] pub struct Val ( u8 ) ; # [ derive ( Clone , Copy ) ] \
pub struct Reg < _T : : : drone_core : : reg : : tag : : RegTag > { pub hsion : Hsion < _T > } \
unsafe impl < _T : : : drone_core : : reg : : tag : : RegTag > : : drone_core : : token : : Token for Reg < _T > \
{ # [ inline ] unsafe fn take ( ) - > Self { Self { hsion : : : drone_core : : token : : Token : : take ( ) , } } }"), "{}", out);
    assert!(out.contains("const ADDRESS : usize = 0x4002_1008 ; const RESET : u8 = 0 ;"), "{}", out);
    assert!(out.contains("const OFFSET : usize = 0 ; const WIDTH : usize = 1 ;"), "{}", out);
    assert!(out.contains("pub fn hsion ( & self ) - > bool { : : drone_core : : reg : : field : : RRRegFieldBit : : read ( & self . reg . hsion , & self . val , ) }"), "{}", out);
    assert!(!out.contains("set_hsion"), "{}", out);
    assert!(out.ends_with("impl < _T : : : drone_core : : reg : : tag : : RegTag > RReg < _T > for Reg < _T > { } }"), "{}", out);
    let t = toks(REG_INPUT);
    let out = joined_toks(&expand_reg(&t).unwrap());
    assert!(out.contains("pub fn write_hsitrim ( & mut self , bits : u32 ) - > & mut Self"), "{}", out);
    assert!(out.contains("# [ cfg ( feature = \"x\" ) ] impl < _T > : : drone_core : : reg : : field : : RegField < _T > for Val_ < _T >"), "{}", out);
    assert!(out.contains("_marker : : : core : : marker : : PhantomData < _T >"), "{}", out);
    assert!(out.contains("# [ doc = \"Converts the token of variant `rcc_cr`, to a token of variant `rcc_cr2`.\" ] pub fn into_rcc_cr2 ( self )"), "{}", out);
}
