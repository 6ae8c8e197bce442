use drone_macros::bindings::bindings;
use drone_macros::mappings_expansion::expand_mappings;
use drone_macros::mappings::{mappings, NO_FIELDS, UNEXPECTED_BLOCK, UNEXPECTED_END};
use drone_macros::reg_block::{reg_block, NO_REG_NAME};
use drone_macros::reg_map::reg_map;
use drone_macros::reg_map_expansion::expand_reg_map;
use drone_macros::reg_tokens::{build_negated_cfg, unsafe_reg_tokens, MacroAttrs, PrevMacro};
use drone_macros::reg_tokens_expansion::expand_unsafe_reg_tokens;
use drone_macros::static_tokens::{expand_static_tokens, unsafe_static_tokens};
use drone_macros::thr::{expand_thr, thr};
use drone_macros::thr_pool::thr_pool;
use drone_macros::thr_soft::thr_soft;
use drone_macros::thread_local::{thread_local, AFTER};
use drone_macros::token::{Delim, ErrorKind, MacroError, Span, Tok, VisKind};
use proc_macro2::{Delimiter, Spacing, TokenStream, TokenTree};
use std::str::FromStr;

fn flatten(ts: TokenStream, out: &mut Vec<Tok>) {
    for tt in ts {
        match tt {
            TokenTree::Ident(i) => out.push(Tok::Ident(i.to_string())),
            TokenTree::Punct(p) => out.push(Tok::Punct(p.as_char(), p.spacing() == Spacing::Joint)),
            TokenTree::Literal(l) => out.push(Tok::Literal(l.to_string())),
            TokenTree::Group(g) => {
                let d = match g.delimiter() {
                    Delimiter::Parenthesis => Delim::Paren,
                    Delimiter::Brace => Delim::Brace,
                    Delimiter::Bracket => Delim::Bracket,
                    Delimiter::None => Delim::Invisible,
                };
                out.push(Tok::Open(d));
                flatten(g.stream(), out);
                out.push(Tok::Close(d));
            }
        }
    }
}

fn toks(s: &str) -> Vec<Tok> {
    let mut v = Vec::new();
    flatten(TokenStream::from_str(s).unwrap(), &mut v);
    v
}

fn text(t: &[Tok], i: usize) -> String {
    match &t[i] {
        Tok::Ident(s) | Tok::Literal(s) => s.clone(),
        Tok::Punct(c, _) => c.to_string(),
        Tok::Open(d) => match d {
            Delim::Paren => "(".to_string(),
            Delim::Brace => "{".to_string(),
            Delim::Bracket => "[".to_string(),
            Delim::Invisible => String::new(),
        },
        Tok::Close(d) => match d {
            Delim::Paren => ")".to_string(),
            Delim::Brace => "}".to_string(),
            Delim::Bracket => "]".to_string(),
            Delim::Invisible => String::new(),
        },
    }
}

fn span_text(t: &[Tok], s: Span) -> String {
    (s.start..s.end).map(|i| text(t, i)).collect::<Vec<_>>().join(" ")
}

const REG_TOKENS_INPUT: &str = "
    /// The register tokens.
    pub macro reg_tokens;
    crate::map::reg;
    crate;
    pub mod RCC { CR; !PLLCFGR; }
    #[cfg(feature = \"gpio\")]
    pub mod GPIOA { MODER; }
    pub mod !DBG { IDCODE; }
";

#[test]
fn reg_tokens_name_blocks_and_registers() {
    let t = toks(REG_TOKENS_INPUT);
    let p = unsafe_reg_tokens(&t).unwrap();
    assert!(p.export);
    assert_eq!(p.blocks.len(), 3);
    let b = &p.blocks[0];
    assert_eq!(b.name, "rcc");
    assert!(b.cfg_attrs.is_empty());
    let regs: Vec<(String, String, String)> =
        b.regs.iter().map(|r| (r.cml.clone(), r.long.clone(), r.short.clone())).collect();
    assert_eq!(
        regs,
        vec![
            ("Cr".to_string(), "rcc_cr".to_string(), "cr".to_string()),
            ("Pllcfgr".to_string(), "rcc_pllcfgr".to_string(), "pllcfgr".to_string()),
        ]
    );
    assert!(p.input.blocks[0].regs[1].skip);
    assert_eq!(p.blocks[1].name, "gpioa");
    assert_eq!(p.blocks[1].cfg_attrs.len(), 1);
    assert!(p.input.blocks[2].skip);
    let neg = &p.blocks[1].negated_cfg;
    let neg_text = (0..neg.len()).map(|i| text(neg, i)).collect::<Vec<_>>().join(" ");
    assert_eq!(neg_text, "# [ cfg ( not ( all ( all ( feature = \"gpio\" ) ) ) ) ]");
    let empty = &p.blocks[0].negated_cfg;
    let empty_text = (0..empty.len()).map(|i| text(empty, i)).collect::<Vec<_>>().join(" ");
    assert_eq!(empty_text, "# [ cfg ( not ( all ( ) ) ) ]");
}

#[test]
fn reg_tokens_chain_a_helper_pair_for_a_conditional_block() {
    let t = toks(REG_TOKENS_INPUT);
    let p = unsafe_reg_tokens(&t).unwrap();
    assert_eq!(p.macros.len(), 3);
    assert_eq!(p.macros[0].attrs, MacroAttrs::Absent(1));
    assert_eq!(p.macros[1].attrs, MacroAttrs::Present(1));
    assert_eq!(p.macros[0].name, "__reg_tokens_cfg_0");
    assert_eq!(p.macros[1].name, "__reg_tokens_cfg_0");
    assert!(p.macros[0].blocks.is_empty());
    assert_eq!(p.macros[1].blocks, vec![1]);
    assert!(matches!(p.macros[0].prev, PrevMacro::Root));
    assert_eq!(p.macros[2].attrs, MacroAttrs::Given);
    assert_eq!(p.macros[2].name, "reg_tokens");
    assert_eq!(p.macros[2].blocks, vec![0, 2]);
    match &p.macros[2].prev {
        PrevMacro::Local(n) => assert_eq!(n, "__reg_tokens_cfg_0"),
        _ => panic!("the last macro hands on to the helper"),
    }
}

#[test]
fn reg_tokens_extend_a_given_macro() {
    let t = toks("macro reg_tokens; use macro crate::parent_tokens; crate::map::reg; crate periph;");
    let p = unsafe_reg_tokens(&t).unwrap();
    assert!(!p.export);
    assert_eq!(p.macros.len(), 1);
    match p.macros[0].prev {
        PrevMacro::Given(s) => assert_eq!(span_text(&t, s), "crate : : parent_tokens"),
        _ => panic!("the macro hands on to the given one"),
    }
    assert_eq!(span_text(&t, p.input.macro_root_path.unwrap()), "periph");
}

#[test]
fn reg_tokens_errors() {
    let t = toks("pub macro reg_tokens crate::map::reg;");
    assert_eq!(unsafe_reg_tokens(&t).unwrap_err().kind, ErrorKind::ExpectedPunct(';'));
    let t = toks("pub struct reg_tokens;");
    assert_eq!(unsafe_reg_tokens(&t).unwrap_err().kind, ErrorKind::ExpectedKeyword("macro"));
}

#[test]
fn static_tokens_name_each_variable() {
    let t = toks("/// Tokens.\npub struct Tokens { #[allow(dead_code)] FOO_BAR: u32, BAZ: [u8; 4], }");
    let p = unsafe_static_tokens(&t).unwrap();
    assert_eq!(p.module, "__tokens_static_tokens");
    let names: Vec<(String, String, String)> =
        p.vars.iter().map(|v| (v.module.clone(), v.ty.clone(), v.field.clone())).collect();
    assert_eq!(
        names,
        vec![
            ("__foo_bar_nested_static_tokens".to_string(), "FooBarToken".to_string(), "foo_bar".to_string()),
            ("__baz_nested_static_tokens".to_string(), "BazToken".to_string(), "baz".to_string()),
        ]
    );
    assert_eq!(span_text(&t, p.input.vars[1].ty), "[ u8 ; 4 ]");
    assert_eq!(p.input.vis.kind, VisKind::Public);
}

#[test]
fn static_tokens_errors() {
    let t = toks("struct Tokens { FOO u32 }");
    assert_eq!(unsafe_static_tokens(&t).unwrap_err().kind, ErrorKind::ExpectedPunct(':'));
    let t = toks("struct Tokens { A: }");
    assert_eq!(unsafe_static_tokens(&t).unwrap_err().kind, ErrorKind::ExpectedIdent);
    let t = toks("struct Tokens {} extra");
    assert_eq!(unsafe_static_tokens(&t).unwrap_err().kind, ErrorKind::Unexpected);
}

#[test]
fn thr_reads_its_three_entries() {
    let t = toks(
        "array => THREADS; /// Thread.\n thread => pub Thr { pub foo: usize = 0; bar: Option<u8> = None }; local => pub ThrLocal { baz: u8 = 1 }",
    );
    let p = thr(&t).unwrap();
    assert_eq!(p.local_wrapper, "ThrLocalWrapper");
    assert_eq!(span_text(&t, p.input.array), "THREADS");
    assert_eq!(p.input.thread.fields.len(), 2);
    assert_eq!(span_text(&t, p.input.thread.fields[1].ty), "Option < u8 >");
    assert_eq!(span_text(&t, p.input.thread.fields[1].init), "None");
    assert_eq!(p.input.local.fields.len(), 1);
}

#[test]
fn thr_errors() {
    let t = toks("array => THREADS; thread => Thr {}");
    assert_eq!(thr(&t).unwrap_err(), MacroError { at: t.len(), kind: ErrorKind::MissingKey("local") });
    let t = toks("#[doc = \"x\"] array => THREADS");
    assert_eq!(thr(&t).unwrap_err().kind, ErrorKind::UnknownKey);
    let t = toks("thread => Thr {}; thread => Thr {}");
    assert_eq!(thr(&t).unwrap_err().kind, ErrorKind::MultipleKey("thread"));
}

#[test]
fn thr_pool_names_the_static_and_the_tokens() {
    let t = toks(
        "pool => pub Pool; thread => pub Thr {}; local => pub Local {}; index => pub Thrs; threads => { pub sys_tick; pub FooBar }",
    );
    let p = thr_pool(&t).unwrap();
    assert_eq!(p.static_ident, "POOL");
    assert_eq!(p.local_wrapper, "LocalWrapper");
    assert_eq!(
        p.tokens,
        vec![
            ("sys_tick".to_string(), "SysTick".to_string()),
            ("foo_bar".to_string(), "FooBar".to_string()),
        ]
    );
    assert_eq!(p.pool, vec![0, 1]);
    assert_eq!(p.token_indices, vec![0, 1]);
}

#[test]
fn thr_pool_errors() {
    let t = toks("pool => Pool; thread => Thr {}; local => Local {}; index => Thrs");
    assert_eq!(thr_pool(&t).unwrap_err().kind, ErrorKind::MissingKey("threads"));
    let t = toks("#[x] threads => {}");
    assert_eq!(thr_pool(&t).unwrap_err().kind, ErrorKind::UnknownKey);
}

#[test]
fn thr_soft_reads_optional_paths() {
    let t = toks(
        "thread => pub Thr { foo: u8 = 0; }; local => pub Local {}; index => pub Thrs; threads => { a; b }; resume => crate::resume; set_pending => crate::set",
    );
    let p = thr_soft(&t).unwrap();
    assert_eq!(span_text(&t, p.thread.body), "foo : u8 = 0 ;");
    assert_eq!(span_text(&t, p.threads), "a ; b");
    assert_eq!(span_text(&t, p.resume.unwrap()), "crate : : resume");
    assert_eq!(span_text(&t, p.set_pending.unwrap()), "crate : : set");
    let t = toks("thread => Thr {}; local => Local {}; index => Thrs; threads => {}");
    let p = thr_soft(&t).unwrap();
    assert!(p.resume.is_none() && p.set_pending.is_none());
}

#[test]
fn thr_soft_errors() {
    let t = toks("resume => x; resume => y");
    assert_eq!(thr_soft(&t).unwrap_err().kind, ErrorKind::MultipleKey("resume"));
    let t = toks("thread => Thr {}; local => Local {}; index => Thrs");
    assert_eq!(thr_soft(&t).unwrap_err().kind, ErrorKind::MissingKey("threads"));
}

#[test]
fn thread_local_reads_attributes_and_fields() {
    let t = toks("#![allow(dead_code)] /// Doc.\n pub foo: usize = { 0 } bar: Option<u8> = { None }");
    let p = thread_local(&t).unwrap();
    assert_eq!(p.attrs.len(), 1);
    assert_eq!(p.fields.len(), 2);
    assert!(p.fields[0].public);
    assert_eq!(p.fields[0].attrs.len(), 1);
    assert_eq!(text(&t, p.fields[0].ident), "foo");
    assert_eq!(span_text(&t, p.fields[0].init), "0");
    assert!(!p.fields[1].public);
    assert_eq!(span_text(&t, p.fields[1].ty), "Option < u8 >");
}

#[test]
fn thread_local_errors() {
    let t = toks("foo usize = { 0 }");
    let e = thread_local(&t).unwrap_err();
    assert_eq!(e, MacroError { at: 1, kind: ErrorKind::InvalidAfter(AFTER, Span { start: 0, end: 1 }) });
    assert_eq!(text(&t, 0), "foo");
    let t = toks("foo: [u8; 2] = { [0; 2] }");
    assert_eq!(thread_local(&t).unwrap_err(), MacroError { at: 2, kind: ErrorKind::InvalidAfter(AFTER, Span { start: 0, end: 2 }) });
    let t = toks("foo: u8 = 1");
    assert_eq!(thread_local(&t).unwrap_err(), MacroError { at: 4, kind: ErrorKind::InvalidAfter(AFTER, Span { start: 0, end: 4 }) });
    let t = toks("x = {}");
    assert_eq!(thread_local(&t).unwrap_err(), MacroError { at: 1, kind: ErrorKind::InvalidAfter(AFTER, Span { start: 0, end: 1 }) });
}

#[test]
fn bindings_split_each_register_into_macro_and_arguments() {
    let t = toks("#![doc = \"x\"] gpio: drone_stm32::periph_gpio_a<GpioA>, rcc: rcc_periph");
    let p = bindings(&t).unwrap();
    assert_eq!(p.input.attrs.len(), 1);
    assert_eq!(p.input.bindings.len(), 2);
    let m: Vec<String> = p.plans[0].macro_toks.iter().map(|&i| text(&t, i)).collect();
    assert_eq!(m, vec!["drone_stm32", ":", "periph_gpio_a"]);
    let a: Vec<String> = p.plans[0].args.iter().map(|&i| text(&t, i)).collect();
    assert_eq!(a, vec!["GpioA"]);
    let m: Vec<String> = p.plans[1].macro_toks.iter().map(|&i| text(&t, i)).collect();
    assert_eq!(m, vec!["rcc_periph"]);
    assert!(p.plans[1].args.is_empty());
}

#[test]
fn bindings_errors() {
    let t = toks("gpio = x");
    assert_eq!(bindings(&t).unwrap_err().at, 1);
    let t = toks("gpio: x(y)");
    assert_eq!(bindings(&t).unwrap_err().at, 3);
    let t = toks("#[doc = \"x\"] gpio: x");
    assert_eq!(bindings(&t).unwrap_err().at, 1);
}

const MAPPINGS_INPUT: &str = "
    #![doc = \"Reset and clock control.\"]
    RCC
    #[doc = \"Clock control register.\"]
    CR {
        0x4002_1000 0x20 0x0000_0083
        RReg WReg
        HSION { 0 1 RRegField WRegField }
        HSITRIM { 3 5 RRegField }
    }
    CFGR {
        0x4002_1004 0x20 0
        SW { 0 2 RRegField WRegField }
    }
";

#[test]
fn mappings_take_the_last_trait_as_the_first_field() {
    let t = toks(MAPPINGS_INPUT);
    let p = mappings(&t).unwrap();
    assert_eq!(p.module, "rcc");
    assert_eq!(p.prefix, "Rcc");
    assert_eq!(p.input.attrs.len(), 1);
    assert_eq!(p.regs.len(), 2);
    let r = &p.regs[0];
    assert_eq!(r.ty, "Cr");
    assert_eq!(r.module, "cr");
    assert_eq!(r.alias, "RccCr");
    assert_eq!(r.raw_ty, "u32");
    let traits: Vec<String> = p.input.regs[0].traits.iter().map(|tr| text(&t, tr.ident)).collect();
    assert_eq!(traits, vec!["RReg", "WReg"]);
    assert_eq!(p.input.regs[0].attrs.len(), 1);
    assert_eq!(p.input.regs[0].address, 0x4002_1000);
    assert_eq!(p.input.regs[0].reset, 0x83);
    assert_eq!(r.fields.len(), 2);
    assert_eq!(r.fields[0].ty, "Hsion");
    assert!(r.fields[0].bit && r.fields[0].read && r.fields[0].write);
    assert_eq!(r.fields[0].clear_name, "clear_hsion");
    assert!(!r.fields[1].bit && r.fields[1].read && !r.fields[1].write);
    assert_eq!(r.fields[1].write_name, "write_hsitrim");
    assert_eq!(p.regs[1].fields[0].ident, "sw");
}

#[test]
fn mappings_errors() {
    let t = toks("RCC CR { 0 32 0 RReg }");
    assert_eq!(mappings(&t).unwrap_err().kind, ErrorKind::Invalid(NO_FIELDS));
    let t = toks("RCC CR { 0 32 0 { 0 1 } }");
    assert_eq!(mappings(&t).unwrap_err().kind, ErrorKind::Invalid(UNEXPECTED_BLOCK));
    let t = toks("RCC CR { 0 32u32 0 A { 0 1 } }");
    assert_eq!(mappings(&t).unwrap_err().at, 4);
    let t = toks("");
    assert_eq!(mappings(&t).unwrap_err().at, 0);
}

const REG_MAP_INPUT: &str = "
    /// Reset and clock control.
    pub mod RCC;
    CR {
        0x4002_1000 32 0x83 RReg WReg;
        HSION { 0 1 RRRegField WWRegField }
        HSITRIM { 3 5 RRRegField WWRegField RReg }
    }
    CFGR { 0x4002_1004 16 0; }
";

#[test]
fn reg_map_plans_each_register() {
    let t = toks(REG_MAP_INPUT);
    let p = reg_map(&t).unwrap();
    assert_eq!(p.module, "rcc");
    assert_eq!(p.regs.len(), 2);
    let r = &p.regs[0];
    assert_eq!(r.module, "cr");
    assert_eq!(r.ty, "Cr");
    assert_eq!(r.alias, "RccCr");
    assert_eq!(r.val_ty, "u32");
    let imports: Vec<String> = r.imports.iter().map(|&i| text(&t, i)).collect();
    assert_eq!(imports, vec!["RReg", "WReg", "RRRegField", "WWRegField"]);
    assert!(r.fields[0].bit && r.fields[0].read && r.fields[0].write);
    assert_eq!(r.fields[0].set_name, "set_hsion");
    assert!(!r.fields[1].bit);
    assert_eq!(p.regs[1].val_ty, "u16");
    assert!(p.regs[1].fields.is_empty());
    assert!(p.regs[1].imports.is_empty());
}

#[test]
fn reg_map_errors() {
    let t = toks("pub mod RCC; CR { 0 32 0 RReg }");
    assert_eq!(reg_map(&t).unwrap_err().kind, ErrorKind::ExpectedIdent);
    let t = toks("pub mod RCC; CR { 0 \"32\" 0; }");
    assert_eq!(reg_map(&t).unwrap_err().kind, ErrorKind::ExpectedIntLit);
    let t = toks("pub struct RCC;");
    assert_eq!(reg_map(&t).unwrap_err().kind, ErrorKind::ExpectedKeyword("mod"));
}

#[test]
fn reg_block_aliases_keep_the_register_name() {
    let t = toks("#![doc = \"x\"] RCC reg! { #[doc = \"y\"] CR 0 32 0 } ; reg!( CFGR_2 0 32 0 )");
    let p = reg_block(&t).unwrap();
    assert_eq!(p.module, "rcc");
    assert_eq!(
        p.regs,
        vec![("Cr".to_string(), "RccCR".to_string()), ("Cfgr2".to_string(), "RccCFGR_2".to_string())]
    );
}

#[test]
fn reg_block_errors() {
    let t = toks("RCC reg! { 0 32 }");
    assert_eq!(reg_block(&t).unwrap_err().kind, ErrorKind::Invalid(NO_REG_NAME));
    let t = toks("RCC reg { }");
    assert_eq!(reg_block(&t).unwrap_err().at, 2);
}

#[test]
fn mappings_of_nothing_is_an_unexpected_end() {
    assert_eq!(UNEXPECTED_END, "Unexpected end of macro invokation");
    assert_eq!(
        mappings(&Vec::new()).unwrap_err(),
        MacroError { at: 0, kind: ErrorKind::Invalid(UNEXPECTED_END) }
    );
}

#[test]
fn negated_cfg_joins_every_condition() {
    let t = toks("#[cfg(a)] #[cfg(b)]");
    let neg = build_negated_cfg(&t, &vec![0, 7], t.len());
    let neg_text = (0..neg.len()).map(|i| text(&neg, i)).collect::<Vec<_>>().join(" ");
    assert_eq!(neg_text, "# [ cfg ( not ( all ( all ( a ) , all ( b ) ) ) ) ]");
}

#[test]
fn static_tokens_expand_to_a_structure_and_a_token_for_each_variable() {
    let t = toks("pub struct Tokens { FOO: u32 }");
    let v = expand_static_tokens(&t).unwrap();
    let out = (0..v.len()).map(|i| text(&v, i)).collect::<Vec<_>>().join(" ");
    assert_eq!(
        out,
        "mod __tokens_static_tokens { use super : : * ; pub struct Tokens { \
# [ allow ( missing_docs ) ] pub foo : FooToken , __priv : ( ) , } \
unsafe impl : : drone_core : : token : : Token for Tokens { # [ inline ] unsafe fn take ( ) - > Self \
{ Self { foo : : : drone_core : : token : : Token : : take ( ) , __priv : ( ) , } } } } \
pub use __tokens_static_tokens : : Tokens ; \
mod __foo_nested_static_tokens { use super : : * ; pub struct FooToken ( ( ) ) ; \
unsafe impl : : drone_core : : token : : Token for FooToken { # [ inline ] unsafe fn take ( ) - > Self { FooToken ( ( ) ) } } } \
pub use __foo_nested_static_tokens : : FooToken ; \
unsafe impl : : drone_core : : token : : StaticToken for FooToken { type Target = u32 ; \
# [ inline ] fn get ( & mut self ) - > & mut Self : : Target { unsafe { & mut FOO } } \
# [ inline ] fn into_static ( self ) - > & ' static mut Self : : Target { unsafe { & mut FOO } } }"
    );
    assert_eq!(expand_static_tokens(&toks("struct Tokens {} extra")).unwrap_err().kind, ErrorKind::Unexpected);
}

#[test]
fn thr_expands_to_the_thread_and_its_local_structure() {
    let t = toks("array => THREADS; thread => pub Thr { pub foo: usize = 0 }; local => Loc { }");
    let v = expand_thr(&t).unwrap();
    let out = (0..v.len()).map(|i| text(&v, i)).collect::<Vec<_>>().join(" ");
    assert_eq!(
        out,
        "pub struct Thr { fib_chain : : : drone_core : : fib : : Chain , local : LocWrapper , pub foo : usize , } \
impl Thr { # [ doc = \" Creates a new thread object with given `index`.\" ] pub const fn new ( index : usize ) - > Self \
{ Self { fib_chain : : : drone_core : : fib : : Chain : : new ( ) , local : LocWrapper ( Loc : : new ( index ) ) , foo : 0 , } } } \
impl : : drone_core : : thr : : Thread for Thr { type Local = Loc ; \
# [ inline ] fn first ( ) - > * const Self { unsafe { THREADS . as_ptr ( ) } } \
# [ inline ] fn fib_chain ( & self ) - > & : : drone_core : : fib : : Chain { & self . fib_chain } \
# [ inline ] unsafe fn local ( & self ) - > & Loc { & self . local . 0 } } \
struct Loc { preempted : : : drone_core : : thr : : PreemptedCell , } struct LocWrapper ( Loc ) ; \
impl Loc { const fn new ( index : usize ) - > Self { Self { preempted : : : drone_core : : thr : : PreemptedCell : : new ( ) , } } } \
impl : : drone_core : : thr : : ThreadLocal for Loc { # [ inline ] fn preempted ( & self ) - > & : : drone_core : : thr : : PreemptedCell \
{ & self . preempted } } unsafe impl Sync for LocWrapper { }"
    );
}

fn joined_all(v: &[Tok]) -> String {
    (0..v.len()).map(|i| text(v, i)).collect::<Vec<_>>().join(" ")
}

#[test]
fn reg_tokens_expand_to_modules_and_macros() {
    let t = toks("macro reg_tokens; use macro crate::parent_tokens; crate::map::reg; crate periph; mod RCC { CR; }");
    let out = joined_all(&expand_unsafe_reg_tokens(&t).unwrap());
    assert_eq!(
        out,
        "mod rcc { pub use crate : : map : : reg : : rcc_cr as cr ; pub use crate : : map : : reg : : rcc_cr : : Reg as Cr ; } \
macro_rules ! reg_tokens { ( $ ( # [ $ attr : meta ] ) * index = > $ vis : vis $ ty : ident \
$ ( ; $ ( exclude = > { $ ( $ undefs : ident ) , * $ ( , ) ? } ) ? $ ( ; ) ? ) ? ) = > { reg_tokens ! { \
$ ( # [ $ attr ] ) * index = > $ vis $ ty ; exclude = > { $ ( $ ( $ ( $ undefs , ) * ) ? ) ? } ; __extend = > { } ; } } ; \
( $ ( # [ $ attr : meta ] ) * index = > $ vis : vis $ ty : ident ; exclude = > { $ ( $ undefs : ident , ) * } ; \
__extend = > { $ ( $ defs : tt ) * } ; ) = > { crate : : parent_tokens ! { $ ( # [ $ attr ] ) * index = > $ vis $ ty ; \
exclude = > { $ ( $ undefs , ) * } ; __extend = > { rcc_cr $ crate periph : : rcc : : Cr ; $ ( $ defs ) * } ; } } ; }"
    );
    let t = toks(REG_TOKENS_INPUT);
    let out = joined_all(&expand_unsafe_reg_tokens(&t).unwrap());
    assert!(out.contains("# [ doc ( hidden ) ] # [ cfg ( not ( all ( all ( feature = \"gpio\" ) ) ) ) ] # [ macro_export ] macro_rules ! __reg_tokens_cfg_0"), "{}", out);
    assert!(out.contains("# [ cfg ( feature = \"gpio\" ) ] # [ doc ( hidden ) ] # [ macro_export ] macro_rules ! __reg_tokens_cfg_0"), "{}", out);
    assert!(out.contains("$ crate : : __reg_tokens_cfg_0 !"), "{}", out);
    assert!(out.contains(": : drone_core : : reg : : tokens_inner !"), "{}", out);
    assert!(out.contains("rcc_pllcfgr as pllcfgr"), "{}", out);
    assert!(!out.contains("rcc_pllcfgr $ crate"), "{}", out);
    assert!(!out.contains("mod dbg"), "{}", out);
    assert!(out.contains("dbg_idcode $ crate"), "{}", out);
}

#[test]
fn mappings_expand_to_a_block_module_and_aliases() {
    let t = toks("RCC CR { 0x10 32 0x83 RReg HSION { 0 1 RRegField WRegField } }");
    let out = joined_all(&expand_mappings(&t).unwrap());
    assert!(out.starts_with("pub mod rcc { pub use self : : cr : : Reg as Cr ; pub mod cr { use : : drone : : reg ; \
impl < ' a , T : reg : : RegTag > self : : Hold < ' a , T > { # [ inline ( always ) ] pub fn hsion ( & self ) - > bool \
{ self . reg . hsion . read ( & self . val ) } }"), "{}", out);
    assert!(out.contains("pub fn set_hsion ( & mut self ) - > & mut Self { self . reg . hsion . set ( & mut self . val ) ; self }"), "{}", out);
    assert!(out.contains("impl < T : reg : : RegTag > reg : : RegFieldBit < T > for self : : Hsion < T > { }"), "{}", out);
    assert!(out.contains("const ADDRESS : usize = 16 ;"), "{}", out);
    assert!(out.contains("Self : : from_raw ( 131usize as u32 )"), "{}", out);
    assert!(out.contains("impl < T : reg : : RegTag > RReg < T > for self : : Reg < T > { }"), "{}", out);
    assert!(out.contains("unsafe { Self { hsion : self : : Hsion : : bind ( ) } }"), "{}", out);
    assert!(out.ends_with("} } pub use self : : rcc : : Cr as RccCr ;"), "{}", out);
}

#[test]
fn reg_map_expands_to_a_block_module_and_aliases() {
    let t = toks(REG_MAP_INPUT);
    let out = joined_all(&expand_reg_map(&t).unwrap());
    assert!(out.starts_with("# [ doc = \" Reset and clock control.\" ] pub mod rcc { pub mod cr { \
# [ derive ( Clone , Copy ) ] pub struct Hsion < T : __rt : : RegTag > ( T ) ;"), "{}", out);
    assert!(out.contains("use super : : super : : { RReg , WReg , RRRegField , WWRegField } ; mod __rt { extern crate core ; extern crate drone_core ;"), "{}", out);
    assert!(out.contains("pub fn set_hsion ( & mut self ) - > & mut Self { __rt : : WWRegFieldBit : : set ( & self . reg . hsion , & mut self . val ) ; self }"), "{}", out);
    assert!(out.contains("pub fn write_hsitrim ( & mut self , bits : u32 ) - > & mut Self { __rt : : WWRegFieldBits : : write ( & self . reg . hsitrim , & mut self . val , bits , ) ; self }"), "{}", out);
    assert!(out.contains("# [ bitfield ( default = 0x83 ) ] pub struct Val ( u32 ) ;"), "{}", out);
    assert!(out.contains("Self { hsion : __rt : : RegField : : < T > : : new ( ) , hsitrim : __rt : : RegField : : < T > : : new ( ) , }"), "{}", out);
    assert!(out.contains("pub struct Reg < T : __rt : : RegTag > { _marker : __rt : : PhantomData < T > }"), "{}", out);
    assert!(out.contains("} pub use self : : cr : : Reg as Cr ;"), "{}", out);
    assert!(out.ends_with("pub use self : : rcc : : Cr as RccCr ; pub use self : : rcc : : Cfgr as RccCfgr ;"), "{}", out);
}
