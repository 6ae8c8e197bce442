use drone_macros::driver::{
    derive_driver, derive_driver_in_mod, expand_driver, derive_resource, derive_resource_in_mod, item_head,
    parse_wrapper, FreeStep, NewStep, DRIVER_ONLY_TUPLE,
};
use drone_macros::mappings::NO_FIELDS;
use drone_macros::reg_mappings_expansion::expand_reg_mappings;
use drone_macros::reg_mappings::{reg_mappings, AFTER_OWN_NAME, AFTER_REG_TRAITS};
use drone_macros::reg_tokens_struct::{expand_reg_tokens_struct, reg_tokens_struct};
use drone_macros::simple_tokens::{expand_simple_token, expand_simple_tokens};
use drone_macros::reg_assert_taken::expand_reg_assert_taken;
use drone_macros::async_future::expand_async_future;
use drone_macros::bind::expand_bind;
use drone_macros::bindings::expand_bindings;
use drone_macros::reg_block::expand_reg_block;
use drone_macros::reg_tokens_inner::expand_reg_tokens_inner;
use drone_macros::thr_pool::expand_thr_pool;
use drone_macros::thr_soft::expand_thr_soft;
use drone_macros::thread_local::expand_thread_local as expand_tls;
use drone_macros::thr_static::{
    expand_thr, expand_thread_local, expand_thread_macro, reads_static_thread, thr, thread,
    thread_local,
};
use drone_macros::token::{Delim, ErrorKind, MacroError, Span, Tok, VisKind};
use proc_macro2::{Delimiter, Spacing, TokenStream, TokenTree};
use std::str::FromStr;

fn flatten(ts: TokenStream, out: &mut Vec<Tok>) {
    for tt in ts {
        match tt {
            TokenTree::Ident(i) => out.push(Tok::Ident(i.to_string())),
            TokenTree::Punct(p) => out.push(Tok::Punct(p.as_char(), p.spacing() == Spacing::Joint)),
            TokenTree::Literal(l) => out.push(Tok::Literal(l.to_string())),
            TokenTree::Group(g) => {
                let d = match g.delimiter() {
                    Delimiter::Parenthesis => Delim::Paren,
                    Delimiter::Brace => Delim::Brace,
                    Delimiter::Bracket => Delim::Bracket,
                    Delimiter::None => Delim::Invisible,
                };
                out.push(Tok::Open(d));
                flatten(g.stream(), out);
                out.push(Tok::Close(d));
            }
        }
    }
}

fn toks(s: &str) -> Vec<Tok> {
    let mut v = Vec::new();
    flatten(TokenStream::from_str(s).unwrap(), &mut v);
    v
}

fn text(t: &[Tok], i: usize) -> String {
    match &t[i] {
        Tok::Ident(s) | Tok::Literal(s) => s.clone(),
        Tok::Punct(c, _) => c.to_string(),
        Tok::Open(d) => match d {
            Delim::Paren => "(".to_string(),
            Delim::Brace => "{".to_string(),
            Delim::Bracket => "[".to_string(),
            Delim::Invisible => String::new(),
        },
        Tok::Close(d) => match d {
            Delim::Paren => ")".to_string(),
            Delim::Brace => "}".to_string(),
            Delim::Bracket => "]".to_string(),
            Delim::Invisible => String::new(),
        },
    }
}

fn span_text(t: &[Tok], s: Span) -> String {
    (s.start..s.end).map(|i| text(t, i)).collect::<Vec<_>>().join(" ")
}

fn only_tuple() -> MacroError {
    MacroError { at: 0, kind: ErrorKind::Invalid(DRIVER_ONLY_TUPLE) }
}

#[test]
fn driver_of_a_plain_resource() {
    let t = toks("pub struct FooDrv(FooRes);");
    let p = derive_driver(&t).unwrap();
    assert_eq!(text(&t, p.ident), "FooDrv");
    assert_eq!(p.rt, "__driver_rt_foo_drv");
    assert_eq!(span_text(&t, p.res), "FooRes");
    assert!(!p.forward && !p.ref_cell && !p.option);
    assert_eq!(p.new_steps, vec![NewStep::FromSource]);
    assert_eq!(p.free_steps, vec![FreeStep::Field]);
    assert_eq!(p.generics.start, p.generics.end);
}

#[test]
fn forward_driver_in_a_ref_cell_of_an_option() {
    let t = toks("/// Doc.\n#[driver(forward)]\npub struct Outer(RefCell<Option<Inner<u8>>>);");
    let p = derive_driver(&t).unwrap();
    assert!(p.forward && p.ref_cell && p.option);
    assert_eq!(span_text(&t, p.res), "Inner < u8 >");
    assert_eq!(p.new_steps, vec![NewStep::DriverNew, NewStep::WrapSome, NewStep::WrapRefCell]);
    assert_eq!(
        p.free_steps,
        vec![FreeStep::Field, FreeStep::IntoInner, FreeStep::Unwrap, FreeStep::DriverFree]
    );
}

#[test]
fn option_outside_a_ref_cell_keeps_the_ref_cell_in_the_resource() {
    let t = toks("struct A(Option<RefCell<T>>);");
    let p = derive_driver(&t).unwrap();
    assert!(p.option && !p.ref_cell);
    assert_eq!(span_text(&t, p.res), "RefCell < T >");
    assert_eq!(p.new_steps, vec![NewStep::FromSource, NewStep::WrapSome]);
    assert_eq!(p.free_steps, vec![FreeStep::Field, FreeStep::Unwrap]);
}

#[test]
fn empty_driver_attribute_is_not_forward() {
    let t = toks("#[driver()] struct A(B,);");
    let p = derive_driver(&t).unwrap();
    assert!(!p.forward);
    assert_eq!(span_text(&t, p.res), "B");
}

#[test]
fn driver_generics_are_kept() {
    let t = toks("struct Drv<T: Res>(T) where T: Copy;");
    let p = derive_driver(&t).unwrap();
    assert_eq!(span_text(&t, p.generics), "< T : Res >");
    assert_eq!(span_text(&t, p.res), "T");
}

#[test]
fn driver_errors() {
    assert_eq!(derive_driver(&toks("struct A { x: B }")).unwrap_err(), only_tuple());
    assert_eq!(derive_driver(&toks("struct A(B, C);")).unwrap_err(), only_tuple());
    assert_eq!(derive_driver(&toks("struct A;")).unwrap_err(), only_tuple());
    assert_eq!(derive_driver(&toks("enum A { B(C) }")).unwrap_err(), only_tuple());
    let bad = MacroError { at: 0, kind: ErrorKind::Unexpected };
    assert_eq!(derive_driver(&toks("#[driver(backward)] struct A(B);")).unwrap_err(), bad);
    assert_eq!(derive_driver(&toks("#[driver] struct A(B);")).unwrap_err(), bad);
    assert_eq!(derive_driver(&toks("#[driver(forward, forward)] struct A(B);")).unwrap_err(), bad);
    assert_eq!(derive_driver(&toks("#[driver(x)] enum A {}")).unwrap_err(), bad);
    let t = toks("#[inline] #[driver = \"x\"] struct A(B);");
    assert_eq!(derive_driver(&t).unwrap_err(), MacroError { at: 4, kind: ErrorKind::Unexpected });
}

#[test]
fn only_the_first_driver_attribute_counts() {
    let t = toks("#[driver(forward)] #[driver(backward)] struct A(B);");
    assert!(derive_driver(&t).unwrap().forward);
}

#[test]
fn wrappers_are_taken_off_only_where_they_wrap_one_type() {
    let t = toks("RefCell<T>");
    let all = Span { start: 0, end: t.len() };
    assert_eq!(parse_wrapper(&t, all, "RefCell"), (Span { start: 2, end: 3 }, true));
    assert_eq!(parse_wrapper(&t, all, "Option"), (all, false));
    for s in ["RefCell<'a>", "RefCell<T, U>", "RefCell<T>::X", "::RefCell<T>", "RefCell<3>", "RefCell<X = Y>", "RefCell"] {
        let t = toks(s);
        let all = Span { start: 0, end: t.len() };
        assert_eq!(parse_wrapper(&t, all, "RefCell"), (all, false), "{}", s);
    }
    let t = toks("Option<Vec<(u8, u16)>,>");
    let all = Span { start: 0, end: t.len() };
    let (inner, found) = parse_wrapper(&t, all, "Option");
    assert!(found);
    assert_eq!(span_text(&t, inner), "Vec < ( u8 , u16 ) >");
}

#[test]
fn driver_in_mod_takes_the_last_field_as_written() {
    let t = toks("struct FooDrv(A, pub B);");
    let p = derive_driver_in_mod(&t).unwrap();
    assert_eq!(p.scope, "__driver_foo_drv");
    assert_eq!(span_text(&t, p.res), "pub B");
    assert!(!p.forward);
    let t = toks("#[driver(forward)] struct D(RefCell<E>);");
    let p = derive_driver_in_mod(&t).unwrap();
    assert!(p.forward);
    assert_eq!(span_text(&t, p.res), "RefCell < E >");
    assert_eq!(derive_driver_in_mod(&toks("struct A(B,);")).unwrap_err(), only_tuple());
    assert_eq!(derive_driver_in_mod(&toks("struct A();")).unwrap_err(), only_tuple());
}

#[test]
fn resources_name_their_modules() {
    let t = toks("#[derive(Clone)] pub(crate) struct UartRes<T>;");
    let h = item_head(&t).unwrap();
    assert_eq!(text(&t, h.ident), "UartRes");
    assert_eq!(text(&t, h.keyword), "struct");
    let p = derive_resource(&t);
    assert_eq!(p.module, "__resource_uart_res");
    assert_eq!(p.ident, h.ident);
    assert_eq!(span_text(&t, p.generics), "< T >");
    let p = derive_resource_in_mod(&t);
    assert_eq!(p.module, "__driver_uart_res");
    let t = toks("enum Pins { A, B }");
    assert_eq!(derive_resource(&t).module, "__resource_pins");
    let t = toks("union U { a: u8 }");
    assert!(item_head(&t).is_some());
    assert!(item_head(&toks("fn f() {}")).is_none());
}

#[test]
fn register_tokens_structure_has_a_field_for_each_register() {
    let t = toks(
        "/// Tokens.\npub struct RegIdx; Rcc { #[cfg(x)] Cr; PllCfgR; } Mod { Ctl; } Empty {}",
    );
    let p = reg_tokens_struct(&t).unwrap();
    assert_eq!(text(&t, p.ident), "RegIdx");
    assert_eq!(p.vis.kind, VisKind::Public);
    assert_eq!(p.rt, "__reg_tokens_rt_reg_idx");
    let names: Vec<_> = p.fields.iter().map(|f| f.name.clone()).collect();
    assert_eq!(names, vec!["rcc_cr", "rcc_pll_cfg_r", "mod_ctl"]);
    let mods: Vec<_> = p.fields.iter().map(|f| f.block_mod.clone()).collect();
    assert_eq!(mods, vec!["rcc", "rcc", "mod_"]);
    let structs: Vec<_> = p.fields.iter().map(|f| f.reg_struct.clone()).collect();
    assert_eq!(structs, vec!["Cr", "PllCfgR", "Ctl"]);
    assert_eq!(span_text(&t, p.fields[0].attrs), "# [ cfg ( x ) ]");
    assert_eq!(p.fields[1].attrs.start, p.fields[1].attrs.end);
}

#[test]
fn register_tokens_structure_errors() {
    let t = toks("struct R; Rcc { Cr }");
    assert_eq!(reg_tokens_struct(&t).unwrap_err(), MacroError { at: 6, kind: ErrorKind::ExpectedPunct(';') });
    let t = toks("struct R; Rcc ( Cr; )");
    assert_eq!(reg_tokens_struct(&t).unwrap_err(), MacroError { at: 4, kind: ErrorKind::ExpectedGroup(Delim::Brace) });
    let t = toks("struct R Rcc { }");
    assert_eq!(reg_tokens_struct(&t).unwrap_err(), MacroError { at: 2, kind: ErrorKind::ExpectedPunct(';') });
    let t = toks("struct R; 3 { }");
    assert_eq!(reg_tokens_struct(&t).unwrap_err(), MacroError { at: 3, kind: ErrorKind::ExpectedIdent });
}

#[test]
fn thread_macros_read_the_same_input() {
    let t = toks("pub struct Thr; extern static THREADS; pub x: u32 = 0; y: bool = true;");
    let a = thr(&t).unwrap();
    let b = thread(&t).unwrap();
    let c = thread_local(&t);
    assert_eq!(a.rt, "__thr_rt");
    assert_eq!(b.rt, "__thread_rt");
    assert_eq!(c.rt, "rt");
    for p in [&a, &b, &c] {
        assert_eq!(text(&t, p.ident), "Thr");
        assert_eq!(text(&t, p.array), "THREADS");
        assert_eq!(p.fields.len(), 2);
    }
    assert!(reads_static_thread(&t));
    let bad = toks("pub struct Thr; extern static THREADS; x: u32;");
    assert!(!reads_static_thread(&bad));
    assert_eq!(thread(&bad).unwrap_err(), MacroError { at: 8, kind: ErrorKind::Unexpected });
}

#[test]
fn reg_mappings_plans_registers_and_fields() {
    let t = toks(
        "#![doc = \"Clock.\"] RCC; #[doc = \"Control.\"] CR { 0x4002_1000 0x20 0x0000_0083 RReg WReg; HSION { 0 1 RRRegField WWRegField } #[doc = \"Trim.\"] HSITRIM { 3 5 RRRegField } }",
    );
    let p = reg_mappings(&t).unwrap();
    assert_eq!(p.attrs.len(), 1);
    assert_eq!(text(&t, p.block), "RCC");
    assert_eq!(p.module, "rcc");
    assert_eq!(p.prefix, "Rcc");
    assert_eq!(p.regs.len(), 1);
    let g = &p.regs[0];
    assert_eq!((g.address, g.raw, g.reset), (0x4002_1000, 32, 0x83));
    assert_eq!(g.traits.len(), 2);
    assert_eq!(g.fields.len(), 2);
    assert_eq!(g.fields[1].attrs.len(), 1);
    let r = &p.plans[0];
    assert_eq!((r.ty.as_str(), r.module.as_str(), r.raw_ty.as_str(), r.alias.as_str()), ("Cr", "cr", "u32", "RccCr"));
    let f = &r.fields[0];
    assert_eq!((f.ty.as_str(), f.ident.as_str()), ("Hsion", "hsion"));
    assert!(f.bit && f.read && f.write);
    assert_eq!(f.set_name, "set_hsion");
    let f = &r.fields[1];
    assert!(!f.bit && f.read && !f.write);
    assert_eq!(f.write_name, "write_hsitrim");
}

#[test]
fn reg_mappings_errors() {
    let e = reg_mappings(&toks("RCC CR { 0 32 0 ; A { 0 1 } }")).unwrap_err();
    assert_eq!(e, MacroError { at: 1, kind: ErrorKind::InvalidAfter(AFTER_OWN_NAME, Span { start: 0, end: 1 }) });
    let e = reg_mappings(&toks("RCC; CR { 0 32 0 RReg; }")).unwrap_err();
    assert_eq!(e, MacroError { at: 9, kind: ErrorKind::Invalid(NO_FIELDS) });
    let e = reg_mappings(&toks("RCC; CR { 0 32 0 RReg }")).unwrap_err();
    assert_eq!(e, MacroError { at: 8, kind: ErrorKind::Invalid(AFTER_REG_TRAITS) });
    let e = reg_mappings(&toks("RCC; CR { 0 32 0 RReg , }")).unwrap_err();
    assert_eq!(e, MacroError { at: 8, kind: ErrorKind::Invalid(AFTER_REG_TRAITS) });
    assert!(reg_mappings(&toks("RCC;")).unwrap().regs.is_empty());
}

#[test]
fn register_tokens_structure_expands_to_its_items() {
    let t = toks("pub struct Regs; Rcc { #[cfg(x)] Cr; }");
    let v = expand_reg_tokens_struct(&t).unwrap();
    let out = (0..v.len()).map(|i| text(&v, i)).collect::<Vec<_>>().join(" ");
    assert_eq!(
        out,
        "mod __reg_tokens_rt_regs { extern crate drone_core ; pub use self : : drone_core : : reg : : { Reg , RegTokens , Srt } ; } \
pub struct Regs { # [ cfg ( x ) ] pub rcc_cr : rcc : : Cr < __reg_tokens_rt_regs : : Srt > } \
impl __reg_tokens_rt_regs : : RegTokens for Regs { unsafe fn new ( ) - > Self { Self { rcc_cr : < rcc : : Cr < _ > as __reg_tokens_rt_regs : : Reg < _ > > : : new ( ) , } } }"
    );
    assert_eq!(
        expand_reg_tokens_struct(&toks("struct R Rcc { }")).unwrap_err(),
        MacroError { at: 2, kind: ErrorKind::ExpectedPunct(';') }
    );
}

fn joined(v: &[Tok]) -> String {
    (0..v.len()).map(|i| text(v, i)).collect::<Vec<_>>().join(" ")
}

#[test]
fn thread_structures_expand_to_their_items() {
    let t = toks("pub struct Thr; extern static THREADS; pub x: u32 = 0;");
    let out = joined(&expand_thr(&t).unwrap());
    assert_eq!(
        out,
        "mod __thr_rt { extern crate drone_core ; pub use self : : drone_core : : fib : : Chain ; \
pub use self : : drone_core : : thr : : { TaskCell , Thread } ; } \
pub struct Thr { fib_chain : __thr_rt : : Chain , task : __thr_rt : : TaskCell , preempted : usize , pub x : u32 , } \
impl Thr { # [ doc = \" Creates a new thread.\" ] # [ inline ( always ) ] pub const fn new ( _index : usize ) - > Self \
{ Self { fib_chain : __thr_rt : : Chain : : new ( ) , task : __thr_rt : : TaskCell : : new ( ) , preempted : 0 , x : 0 , } } } \
impl __thr_rt : : Thread for Thr { # [ inline ( always ) ] fn all ( ) - > * mut [ Self ] { unsafe { & mut THREADS } } \
# [ inline ( always ) ] fn fib_chain ( & self ) - > & __thr_rt : : Chain { & self . fib_chain } \
# [ inline ( always ) ] fn fib_chain_mut ( & mut self ) - > & mut __thr_rt : : Chain { & mut self . fib_chain } \
# [ inline ( always ) ] fn task ( & self ) - > & __thr_rt : : TaskCell { & self . task } \
# [ inline ( always ) ] fn preempted ( & mut self ) - > & mut usize { & mut self . preempted } }"
    );
    let out = joined(&expand_thread_macro(&t).unwrap());
    assert!(out.starts_with("mod __thread_rt { extern crate drone_core ; pub use self : : drone_core : : fiber : : Chain ;"));
    assert!(out.contains("fn fibers_mut ( & mut self ) - > & mut __thread_rt : : Chain { & mut self . fibers }"));
    assert!(out.contains("# [ doc = \" Creates a new blank thread.\" ]"));
    let out = joined(&expand_thread_local(&t));
    assert!(out.starts_with("mod rt {"));
    let bad = toks("pub struct Thr; extern static THREADS; x: u32;");
    assert_eq!(expand_thread_macro(&bad).unwrap_err(), MacroError { at: 8, kind: ErrorKind::Unexpected });
}

#[test]
fn driver_expands_to_its_implementation() {
    let t = toks("#[driver(forward)] pub struct Outer(RefCell<Option<Inner>>);");
    let none = Vec::new();
    let out = joined(&expand_driver(&t, &none, &none, &none).unwrap());
    assert_eq!(
        out,
        "mod __driver_rt_outer { extern crate core ; extern crate drone_core ; \
pub use self : : core : : option : : Option : : * ; pub use self : : core : : cell : : RefCell ; \
pub use self : : drone_core : : drv : : { Driver , Resource } ; } \
impl __driver_rt_outer : : Driver for Outer { type Resource = < Inner as __driver_rt_outer : : Driver > : : Resource ; \
# [ inline ( always ) ] fn new ( source : < Self : : Resource as __driver_rt_outer : : Resource > : : Source ) - > Self \
{ Outer ( __driver_rt_outer : : RefCell : : new ( __driver_rt_outer : : Some ( < Inner as __driver_rt_outer : : Driver > : : new ( source ) ) ) ) } \
# [ inline ( always ) ] fn free ( self ) - > Self : : Resource \
{ __driver_rt_outer : : Driver : : free ( self . 0 . into_inner ( ) . unwrap ( ) ) } }"
    );
    let t = toks("struct D<T>(T) where T: X;");
    let ig = toks("<T>");
    let wc = toks("where T: X");
    let out = joined(&expand_driver(&t, &ig, &ig, &wc).unwrap());
    assert!(out.contains("impl < T > __driver_rt_d : : Driver for D < T > where T : X {"));
    assert!(out.contains("type Resource = T ;"));
    assert!(out.contains("{ D ( < T as __driver_rt_d : : Resource > : : from_source ( source ) ) }"));
    assert_eq!(expand_driver(&toks("struct A;"), &none, &none, &none).unwrap_err(), only_tuple());
}

#[test]
fn thread_pool_slots_match_the_token_indices() {
    let t = toks(
        "pool => pub Pool; thread => pub Thr {}; local => pub Local {}; index => pub Thrs; threads => { pub sys_tick; pub FooBar }",
    );
    let out = joined(&expand_thr_pool(&t).unwrap());
    assert!(out.contains("Thr : : new ( 0usize ) , Thr : : new ( 1usize )"), "{}", out);
    assert!(out.contains("const THR_IDX : usize = 0usize ;"), "{}", out);
    assert!(out.contains("const THR_IDX : usize = 1usize ;"), "{}", out);
    assert!(
        out.contains("impl : : drone_core : : thr : : Thread for Thr { type Pool = Pool ; type Local = Local ;"),
        "{}",
        out
    );
    assert!(
        out.contains("struct LocalWrapper ( Local ) ; unsafe impl : : core : : marker : : Sync for LocalWrapper { }"),
        "{}",
        out
    );
    assert!(out.contains("pub struct Thr { fib_chain : : : drone_core : : fib : : Chain , local : LocalWrapper , }"), "{}", out);
    let first = out.find("SysTick").unwrap();
    let second = out.find("FooBar").unwrap();
    assert!(first < second);
    let t = toks("pool => Pool; thread => Thr {}; local => Local {}; index => Thrs");
    assert_eq!(expand_thr_pool(&t).unwrap_err().kind, ErrorKind::MissingKey("threads"));
}

#[test]
fn simple_tokens_expand_to_a_module_and_a_use() {
    let t = toks("#[doc = \"x\"] pub struct Tokens { FooBarToken, BazToken, }");
    let out = joined(&expand_simple_tokens(&t).unwrap());
    assert_eq!(
        out,
        "mod __tokens_init_tokens { use super : : * ; # [ doc = \"x\" ] pub struct Tokens { \
# [ allow ( missing_docs ) ] pub foo_bar : FooBarToken , \
# [ allow ( missing_docs ) ] pub baz : BazToken , __priv : ( ) , } \
unsafe impl : : drone_core : : token : : Token for Tokens { # [ inline ] unsafe fn take ( ) - > Self \
{ Self { foo_bar : : : drone_core : : token : : Token : : take ( ) , \
baz : : : drone_core : : token : : Token : : take ( ) , __priv : ( ) , } } } } \
pub use __tokens_init_tokens : : Tokens ;"
    );
}

#[test]
fn simple_token_expands_to_a_module_and_a_use() {
    let t = toks("struct FooBar;");
    let out = joined(&expand_simple_token(&t).unwrap());
    assert_eq!(
        out,
        "mod __foo_bar_simple_token { use super : : * ; pub struct FooBar { __priv : ( ) , } \
unsafe impl : : drone_core : : token : : Token for FooBar { # [ inline ] unsafe fn take ( ) - > Self \
{ Self { __priv : ( ) , } } } } use __foo_bar_simple_token : : FooBar ;"
    );
    assert!(expand_simple_token(&toks("struct")).is_err());
}

#[test]
fn reg_assert_taken_expands_to_a_symbol() {
    let out = joined(&expand_reg_assert_taken(&toks("concat!(\"gpio\", \"_a\")")).unwrap());
    assert_eq!(out, "# [ no_mangle ] fn __assert_register_block_taken_gpio_a ( ) { }");
    assert!(expand_reg_assert_taken(&toks("1")).is_err());
}

#[test]
fn reg_block_expands_to_a_module_and_aliases() {
    let t = toks("#![doc = \"x\"] RCC reg! { AHB1ENR 0x40 32 0 } ; reg! { CR 0 32 0 }");
    let out = joined(&expand_reg_block(&t).unwrap());
    assert_eq!(
        out,
        "# [ doc = \"x\" ] pub mod rcc { use : : drone : : reg ; use : : drone : : reg : : prelude : : * ; \
reg ! { AHB1ENR 0x40 32 0 } reg ! { CR 0 32 0 } } \
pub use self : : rcc : : Ahb1Enr as RccAHB1ENR ; pub use self : : rcc : : Cr as RccCR ;"
    );
    assert!(expand_reg_block(&toks("RCC reg")).is_err());
}

#[test]
fn reg_tokens_inner_expands_to_sorted_fields() {
    let t = toks("pub Regs { b foo::B; #[cfg(x)] a foo::A; c foo::C; } { c; }");
    let out = joined(&expand_reg_tokens_inner(&t).unwrap());
    assert_eq!(
        out,
        "pub struct Regs { # [ cfg ( x ) ] # [ allow ( missing_docs ) ] pub a : foo : : A < : : drone_core : : reg : : tag : : Srt > , \
# [ allow ( missing_docs ) ] pub b : foo : : B < : : drone_core : : reg : : tag : : Srt > , } \
unsafe impl : : drone_core : : token : : Token for Regs { # [ inline ] unsafe fn take ( ) - > Self \
{ Self { # [ cfg ( x ) ] a : : : drone_core : : token : : Token : : take ( ) , \
b : : : drone_core : : token : : Token : : take ( ) , } } }"
    );
    assert!(expand_reg_tokens_inner(&toks("pub Regs { a foo::A } {}")).is_err());
}

#[test]
fn bindings_expand_to_a_structure_and_its_constructor() {
    let t = toks("#![doc = \"x\"] rcc_cr: rcc::Cr<Srt>, odr: gpio_a::Odr<Srt>");
    let out = joined(&expand_bindings(&t).unwrap());
    assert_eq!(
        out,
        "# [ doc = \"x\" ] # [ allow ( missing_docs ) ] pub struct Bindings { \
pub rcc_cr : rcc : : Cr < Srt > , pub odr : gpio_a : : Odr < Srt > , } impl Bindings { \
# [ doc = \" Create new register bindings.\" ] # [ doc = \"\" ] # [ doc = \" # Safety\" ] # [ doc = \"\" ] \
# [ doc = \" Must be called no more than once, at the very beginning of the program\" ] # [ doc = \" flow.\" ] \
pub unsafe fn new ( ) - > Self { Self { rcc_cr : rcc : : Cr ! ( Srt ) , odr : gpio_a : : Odr ! ( Srt ) , } } }"
    );
    assert!(expand_bindings(&toks("rcc_cr rcc::Cr<Srt>")).is_err());
}

#[test]
fn bind_expands_to_variables_and_their_group() {
    let t = toks("(rcc_cr: rcc::Cr<Srt>)");
    let out = joined(&expand_bind(&t).unwrap());
    assert_eq!(
        out,
        "{ # [ allow ( unused_mut ) ] let mut rcc_cr = unsafe { type Register = rcc : : Cr < Srt > ; \
rcc : : Cr ! ( Register , : : drone : : reg : : Reg : : < _ > , : : drone : : reg : : RegFields ) } ; \
( rcc_cr , ) }"
    );
    let t = toks("Regs { a: x::A<Srt> }");
    let out = joined(&expand_bind(&t).unwrap());
    assert!(out.starts_with("{ # [ allow ( unused_mut ) ] let mut a = unsafe"), "{}", out);
    assert!(out.ends_with("Regs { a , } }"), "{}", out);
    let t = toks("a: x::A<Srt>");
    let out = joined(&expand_bind(&t).unwrap());
    assert!(out.starts_with("# [ allow ( unused_mut ) ] let mut a = unsafe"), "{}", out);
    assert!(out.ends_with("} ;"), "{}", out);
}

#[test]
fn async_future_moves_the_body_into_a_closure() {
    let item = toks("pub fn run(x: u32) -> impl Future { let y = x; y }");
    let out = joined(&expand_async_future(&Vec::new(), &item).unwrap());
    assert_eq!(
        out,
        "pub fn run ( x : u32 ) - > impl Future { AsyncFuture : : new ( move | | { let y = x ; y } ) }"
    );
    assert!(expand_async_future(&toks("x"), &item).is_err());
    assert!(expand_async_future(&Vec::new(), &toks("struct S;")).is_err());
}

#[test]
fn thr_soft_hands_the_pool_on_and_implements_soft_thread() {
    let t = toks(
        "thread => pub Thr { foo: u8 = 0; }; local => pub Local {}; index => pub Thrs; threads => { a; b }; set_pending => crate::set",
    );
    let out = joined(&expand_thr_soft(&t).unwrap());
    assert_eq!(
        out,
        ": : drone_core : : thr : : pool ! { thread = > pub Thr { priority : : : core : : sync : : atomic : : AtomicU8 = \
: : core : : sync : : atomic : : AtomicU8 : : new ( 0 ) ; foo : u8 = 0 ; } ; \
local = > pub Local { } ; index = > pub Thrs ; threads = > { a ; b } ; } \
unsafe impl : : drone_core : : thr : : SoftThread for Thr { # [ inline ] fn pending ( ) - > * const : : core : : sync : : atomic : : AtomicU32 { \
# [ allow ( clippy : : declare_interior_mutable_const ) ] const VALUE : : : core : : sync : : atomic : : AtomicU32 = \
: : core : : sync : : atomic : : AtomicU32 : : new ( 0 ) ; const COUNT : usize = : : drone_core : : thr : : pending_size : : < Thr > ( ) ; \
static PENDING : [ : : core : : sync : : atomic : : AtomicU32 ; COUNT ] = [ VALUE ; COUNT ] ; PENDING . as_ptr ( ) } \
# [ inline ] fn pending_priority ( ) - > * const : : core : : sync : : atomic : : AtomicU8 { static PENDING_PRIORITY : \
: : core : : sync : : atomic : : AtomicU8 = : : core : : sync : : atomic : : AtomicU8 : : new ( 0 ) ; & PENDING_PRIORITY } \
# [ inline ] fn priority ( & self ) - > * const : : core : : sync : : atomic : : AtomicU8 { & self . priority } \
# [ inline ] unsafe fn set_pending ( thr_idx : u16 ) { unsafe { crate : : set ( thr_idx ) } ; } }"
    );
    let t = toks("thread => Thr {}; local => Local {}; index => Thrs; threads => {}; resume => crate::resume");
    let out = joined(&expand_thr_soft(&t).unwrap());
    assert!(out.contains("threads = > { } ; resume = > crate : : resume ; }"), "{}", out);
    assert!(!out.contains("set_pending"), "{}", out);
}

#[test]
fn thread_local_storage_expands_to_its_structure() {
    let t = toks("#![doc = \"x\"] pub foo: u32 = { 1 } #[doc = \"d\"] bar: bool = { false }");
    let out = joined(&expand_tls(&t).unwrap());
    assert!(
        out.starts_with(
            "use core : : cell : : Cell ; use core : : ptr ; use drone : : thread : : { self , Chain , Thread } ; \
# [ doc = \"x\" ] pub struct ThreadLocal { chain : Chain , preempted_id : usize , task : Cell < * mut u8 > , \
pub foo : u32 , # [ doc = \"d\" ] bar : bool , }"
        ),
        "{}",
        out
    );
    assert!(
        out.contains(
            "task : Cell : : new ( ptr : : null_mut ( ) ) , foo : { 1 } , bar : { false } , } } }"
        ),
        "{}",
        out
    );
    assert!(out.contains("unsafe fn get_unchecked ( id : usize ) - > & ' static Self { THREADS . get_unchecked ( id ) }"), "{}", out);
    assert!(out.ends_with("pub unsafe fn init ( ) { thread : : init : : < ThreadLocal > ( ) ; }"), "{}", out);
    assert!(expand_tls(&toks("x = { 1 }")).is_err());
}

#[test]
fn reg_mappings_expand_to_a_block_module_and_aliases() {
    let t = toks(
        "#![doc = \"Clock.\"] RCC; #[doc = \"Control.\"] CR { 0x4002_1000 0x20 0x0000_0083 RReg WReg; HSION { 0 1 RRRegField WWRegField } #[doc = \"Trim.\"] HSITRIM { 3 5 RRRegField } }",
    );
    let out = joined(&expand_reg_mappings(&t).unwrap());
    assert!(out.starts_with("# [ doc = \"Clock.\" ] pub mod rcc { pub use self : : cr : : Reg as Cr ; # [ doc = \"Control.\" ] pub mod cr { use : : drone_core : : reg ;"), "{}", out);
    assert!(out.contains("pub fn set_hsion ( & mut self ) - > & mut Self { self . reg . hsion . set ( & mut self . val ) ; self }"), "{}", out);
    assert!(out.contains("# [ doc = \"Trim.\" ] # [ inline ( always ) ] pub fn hsitrim ( & self ) - > u32 { self . reg . hsitrim . read ( & self . val ) }"), "{}", out);
    assert!(out.contains("impl < _T > reg : : RegFieldBits < _T > for self : : Hsitrim < _T > where _T : reg : : RegTag , { }"), "{}", out);
    assert!(out.contains("pub ( crate ) unsafe fn new ( ) - > Self { Self { hsion : self : : Hsion { _tag : _T : : default ( ) } , hsitrim : self : : Hsitrim { _tag : _T : : default ( ) } } }"), "{}", out);
    assert!(out.contains("const ADDRESS : usize = 1073876992 ;"), "{}", out);
    assert!(out.contains("# [ derive ( Bitfield , Clone , Copy ) ] # [ bitfield ( default = 131 ) ] pub struct Val ( u32 ) ; } }"), "{}", out);
    assert!(out.ends_with("pub use self : : rcc : : Cr as RccCr ;"), "{}", out);
}
