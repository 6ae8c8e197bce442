use drone_macros::async_future::{async_future, ONLY_FUNCTIONS, TAKES_NO_ARGUMENTS};
use drone_macros::bind::{bind, Shape, AFTER_NAME, BEFORE_GROUP, IN_STRUCT_NAME};
use drone_macros::overrides::override_value;
use drone_macros::periph::{periph, OPTION_AND_SHARED, OPTION_IN_ALL, SHARED_WITH_VARIANTS};
use drone_macros::periph_map::{
    periph_map, periph_map_panics, NOT_A_PERIPH_MACRO, NOT_THE_STRUCT, UNKNOWN_OPTION,
};
use drone_macros::periph_singular::{periph_singular, NOT_A_PERIPH_STRUCT};
use drone_macros::res::res;
use drone_macros::thr_static::thr as thr_static;
use drone_macros::res_one::res_one;
use drone_macros::reg_assert_taken::{reg_assert_taken, taken_symbol};
use drone_macros::reg_tokens_inner::reg_tokens_inner;
use drone_macros::simple_tokens::{simple_token, simple_tokens, NOT_A_TOKEN};
use drone_macros::stream::{stream, StreamConfig, StreamSection, LAYOUT_UNREADABLE, NO_SUCH_STREAM};
use drone_macros::token::{Delim, ErrorKind, MacroError, Span, Tok, VisKind};
use proc_macro2::{Delimiter, Spacing, TokenStream, TokenTree};
use std::str::FromStr;

fn flatten(ts: TokenStream, out: &mut Vec<Tok>) {
    for tt in ts {
        match tt {
            TokenTree::Ident(i) => out.push(Tok::Ident(i.to_string())),
            TokenTree::Punct(p) => out.push(Tok::Punct(p.as_char(), p.spacing() == Spacing::Joint)),
            TokenTree::Literal(l) => out.push(Tok::Literal(l.to_string())),
            TokenTree::Group(g) => {
                let d = match g.delimiter() {
                    Delimiter::Parenthesis => Delim::Paren,
                    Delimiter::Brace => Delim::Brace,
                    Delimiter::Bracket => Delim::Bracket,
                    Delimiter::None => Delim::Invisible,
                };
                out.push(Tok::Open(d));
                flatten(g.stream(), out);
                out.push(Tok::Close(d));
            }
        }
    }
}

fn toks(s: &str) -> Vec<Tok> {
    let mut v = Vec::new();
    flatten(TokenStream::from_str(s).unwrap(), &mut v);
    v
}

fn invalid(at: usize, msg: &'static str) -> MacroError {
    MacroError { at, kind: ErrorKind::Invalid(msg) }
}

#[test]
fn bind_plain_bindings_and_their_macros() {
    let t = toks("rcc_cr: rcc::Cr<Srt>, gpio: gpioa::Moder");
    let p = bind(&t).unwrap();
    assert!(matches!(p.shape, Shape::Plain));
    assert_eq!(p.bindings, vec![(0, vec![2, 3, 5, 6, 7, 8]), (10, vec![12, 13, 15])]);
    assert_eq!(p.macros, vec![vec![2, 3, 5], vec![12, 13, 15]]);
}

#[test]
fn bind_tuple() {
    let t = toks("(a: x::Y, b: z::W)");
    let p = bind(&t).unwrap();
    assert!(matches!(p.shape, Shape::Tuple));
    assert_eq!(p.bindings, vec![(1, vec![3, 4, 6]), (8, vec![10, 11, 13])]);
}

#[test]
fn bind_struct_with_absolute_path() {
    let t = toks("::foo::Regs { a: x::Y }");
    let p = bind(&t).unwrap();
    match p.shape {
        Shape::Struct(name) => assert_eq!(name, vec![0, 2, 3, 5]),
        _ => panic!("expected a structure"),
    }
    assert_eq!(p.bindings, vec![(7, vec![9, 10, 12])]);
    assert_eq!(p.macros, vec![vec![9, 10, 12]]);
}

#[test]
fn bind_macro_drops_trailing_path_separator() {
    let t = toks("a: x::<Y>");
    let p = bind(&t).unwrap();
    assert_eq!(p.bindings, vec![(0, vec![2, 3, 5, 6, 7])]);
    assert_eq!(p.macros, vec![vec![2]]);
}

#[test]
fn bind_errors() {
    assert_eq!(bind(&toks("a b")).unwrap_err(), MacroError { at: 1, kind: ErrorKind::InvalidAfter(AFTER_NAME, Span { start: 0, end: 1 }) });
    assert_eq!(bind(&toks("a: x, (b: y)")).unwrap_err(), invalid(4, BEFORE_GROUP));
    assert_eq!(bind(&toks("a: x + y")).unwrap_err(), MacroError { at: 3, kind: ErrorKind::InvalidAfter(AFTER_NAME, Span { start: 0, end: 3 }) });
    assert_eq!(bind(&toks("foo::Bar")).unwrap_err(), invalid(4, IN_STRUCT_NAME));
}

#[test]
fn simple_tokens_fields_and_module() {
    let t = toks("#[doc = \"x\"] pub struct Tokens { FooToken, BarBazToken, }");
    let p = simple_tokens(&t).unwrap();
    assert_eq!(p.input.attrs, Span { start: 0, end: 6 });
    assert_eq!(p.input.vis.kind, VisKind::Public);
    assert_eq!(p.input.ident, 8);
    assert_eq!(p.input.tokens, vec![10, 12]);
    assert_eq!(p.module, "__tokens_init_tokens");
    assert_eq!(p.fields, vec!["foo".to_string(), "bar_baz".to_string()]);
}

#[test]
fn simple_tokens_rejects_a_name_without_the_suffix() {
    assert_eq!(simple_tokens(&toks("struct T { Foo }")).unwrap_err(), invalid(4, NOT_A_TOKEN));
}

#[test]
fn simple_token_module() {
    let t = toks("pub(crate) struct FooBar;");
    let p = simple_token(&t).unwrap();
    assert_eq!(p.vis.kind, VisKind::Restricted);
    assert_eq!(p.vis.span, Span { start: 0, end: 4 });
    assert_eq!(p.ident, 5);
    assert_eq!(p.module, "__foo_bar_simple_token");
    let q = simple_token(&toks("struct Foo")).unwrap();
    assert_eq!(q.ident, 1);
}

#[test]
fn reg_tokens_inner_orders_fields_by_name_and_drops_undefined() {
    let t = toks("pub Regs { #[cfg(x)] b rcc::B; a gpio::A; c x::C; } { c; }");
    let p = reg_tokens_inner(&t).unwrap();
    assert_eq!(p.input.ident, 1);
    assert_eq!(p.input.defs.len(), 3);
    assert_eq!(p.input.defs[0].ident, 10);
    assert_eq!(p.input.defs[1].ident, 16);
    assert_eq!(p.input.defs[2].ident, 22);
    assert_eq!(p.input.undefs, vec![30]);
    assert_eq!(p.fields, vec![1, 0]);
}

#[test]
fn reg_tokens_inner_later_definition_wins() {
    let t = toks("Regs { b x::B; a y::A; b z::B2; } { }");
    let p = reg_tokens_inner(&t).unwrap();
    assert_eq!(p.fields, vec![1, 2]);
}

#[test]
fn reg_assert_taken_single_literal() {
    let p = reg_assert_taken(&toks("\"rcc_ahb1\"")).unwrap();
    assert_eq!(p.strings, vec![0]);
    assert_eq!(p.symbol, "__assert_register_block_taken_rcc_ahb1");
}

#[test]
fn reg_assert_taken_concat() {
    let p = reg_assert_taken(&toks("concat!(\"gpio\", \"_a\",)")).unwrap();
    assert_eq!(p.strings, vec![3, 5]);
    assert_eq!(p.symbol, "__assert_register_block_taken_gpio_a");
}

#[test]
fn reg_assert_taken_reads_escapes() {
    let p = reg_assert_taken(&toks("\"a\\x62\"")).unwrap();
    assert_eq!(p.symbol, "__assert_register_block_taken_ab");
}

#[test]
fn reg_assert_taken_errors() {
    let e = reg_assert_taken(&toks("concat!(1)")).unwrap_err();
    assert_eq!(e, MacroError { at: 3, kind: ErrorKind::ExpectedStrLit });
    let e = reg_assert_taken(&toks("1")).unwrap_err();
    assert_eq!(e.kind, ErrorKind::ExpectedIdent);
    let e = reg_assert_taken(&toks("\"a\" \"b\"")).unwrap_err();
    assert_eq!(e, MacroError { at: 1, kind: ErrorKind::Unexpected });
    let e = reg_assert_taken(&toks("concat!(\"a\") x")).unwrap_err();
    assert_eq!(e, MacroError { at: 5, kind: ErrorKind::Unexpected });
}

#[test]
fn taken_symbol_concatenates() {
    assert_eq!(taken_symbol(&vec![]), "__assert_register_block_taken_");
    assert_eq!(
        taken_symbol(&vec!["a".to_string(), "bc".to_string()]),
        "__assert_register_block_taken_abc"
    );
}

fn sections() -> StreamConfig {
    StreamConfig::Read(vec![
        StreamSection { name: "core0".to_string(), size: 256, init_primary: None },
        StreamSection { name: "main".to_string(), size: 1024, init_primary: Some(true) },
    ])
}

#[test]
fn stream_reads_its_section() {
    let t = toks("layout => main; metadata => pub Stream; instance => pub STREAM; global => true;");
    let p = stream(&t, &sections()).unwrap();
    assert_eq!(p.input.layout, 3);
    assert_eq!(p.input.metadata.ident, 9);
    assert_eq!(p.input.instance.ident, 15);
    assert!(p.input.global);
    assert_eq!(p.buffer_size, 1024);
    assert!(p.init_primary);
    assert_eq!(p.section, ".stream_main_rt");
}

#[test]
fn stream_global_defaults_to_false() {
    let t = toks("layout => core0; metadata => Stream; instance => STREAM");
    let p = stream(&t, &sections()).unwrap();
    assert!(!p.input.global);
    assert_eq!(p.buffer_size, 256);
    assert!(!p.init_primary);
}

#[test]
fn stream_errors() {
    let t = toks("layout => other; metadata => Stream; instance => STREAM");
    assert_eq!(stream(&t, &sections()).unwrap_err(), invalid(3, NO_SUCH_STREAM));
    assert_eq!(stream(&t, &StreamConfig::Unreadable).unwrap_err(), invalid(0, LAYOUT_UNREADABLE));
    let t = toks("layout => a; layout => b");
    assert_eq!(
        stream(&t, &sections()).unwrap_err(),
        MacroError { at: 8, kind: ErrorKind::MultipleKey("layout") }
    );
    let t = toks("layout => a; metadata => M");
    assert_eq!(
        stream(&t, &sections()).unwrap_err(),
        MacroError { at: t.len(), kind: ErrorKind::MissingKey("instance") }
    );
    let t = toks("color => a");
    assert_eq!(stream(&t, &sections()).unwrap_err().kind, ErrorKind::UnknownKey);
}

#[test]
fn async_future_finds_the_body() {
    let t = toks("#[inline] pub unsafe extern \"C\" fn run(x: u32) -> u32 { x + 1 }");
    let (o, c) = async_future(&Vec::new(), &t).unwrap();
    assert!(matches!(t[o], Tok::Open(Delim::Brace)));
    assert!(matches!(t[c], Tok::Close(Delim::Brace)));
    assert_eq!(c, t.len() - 1);
    assert_eq!(o, t.len() - 5);
}

#[test]
fn async_future_errors() {
    let args = toks("x");
    let item = toks("fn f() {}");
    assert_eq!(async_future(&args, &item).unwrap_err(), invalid(0, TAKES_NO_ARGUMENTS));
    assert_eq!(async_future(&Vec::new(), &toks("struct S;")).unwrap_err(), invalid(0, ONLY_FUNCTIONS));
    assert_eq!(async_future(&Vec::new(), &toks("fn f();")).unwrap_err(), invalid(4, ONLY_FUNCTIONS));
}

#[test]
fn periph_plans_each_register_variant() {
    let t = toks(
        "pub trait SysTickMap {} pub struct SysTickPeriph; STK { CTRL { 0x20 RwReg; \
         COUNTFLAG { RwRwRegFieldBit } ENABLE { RwRwRegFieldBit Option } } \
         #[cfg(x)] LOAD { 32 RwReg Shared; RELOAD { RwRwRegFieldBits } } }",
    );
    let p = periph(&t).unwrap();
    assert_eq!(p.input.trait_ident, 2);
    assert_eq!(p.input.trait_items, Span { start: 4, end: 4 });
    assert_eq!(p.input.struct_ident, 7);
    assert_eq!(p.input.parts.blocks.len(), 1);
    assert_eq!(p.input.parts.regs.len(), 2);
    assert_eq!(p.input.parts.regs[1].features, Span { start: 26, end: 33 });
    assert_eq!(p.input.parts.variants[0].size, 32);
    assert_eq!(p.variants.len(), 2);
    let v = &p.variants[0];
    assert!(v.first && !v.shared && !v.option);
    assert_eq!(v.snake, "stk_ctrl");
    assert_eq!(v.name, "StkCtrl");
    assert_eq!(v.traits, vec![14]);
    assert!(v.others.is_empty());
    assert_eq!(v.fields.len(), 2);
    assert_eq!(v.fields[0].ident, "countflag");
    assert_eq!(v.fields[0].name, "StkCtrlCountflag");
    assert_eq!(v.fields[0].snake, "stk_ctrl_countflag");
    assert!(!v.fields[0].option);
    assert!(v.fields[1].option);
    assert_eq!(v.fields[1].traits, vec![22]);
    let w = &p.variants[1];
    assert!(w.shared);
    assert_eq!(w.traits, vec![36]);
    assert_eq!(w.fields[0].snake, "stk_load_reload");
    assert!(!p.marker);
}

#[test]
fn periph_register_with_variants() {
    let t = toks(
        "pub trait T {} pub struct P; B { R { @One 32 RwReg; F { X } @Two 16 RReg; G { Y } } }",
    );
    let p = periph(&t).unwrap();
    assert_eq!(p.variants.len(), 2);
    let a = &p.variants[0];
    assert!(a.first);
    assert_eq!(a.snake, "b_r_one");
    assert_eq!(a.name, "BROne");
    assert_eq!(a.others.len(), 1);
    assert_eq!(a.others[0].variant, 1);
    assert_eq!(a.others[0].into_fn, "into_two");
    assert_eq!(a.others[0].name, "BRTwo");
    assert_eq!(a.fields[0].name, "BROneF");
    let b = &p.variants[1];
    assert!(!b.first);
    assert_eq!(b.size, 16);
    assert_eq!(b.others[0].into_fn, "into_one");
    assert_eq!((a.variant, b.variant), (0, 1));
}

#[test]
fn periph_keyword_field_is_renamed() {
    let t = toks("pub trait T {} pub struct P; B { R { 32 RReg; TYPE { RoRegFieldBits } } }");
    let p = periph(&t).unwrap();
    assert_eq!(p.variants[0].fields[0].ident, "type_");
}

#[test]
fn periph_rule_errors() {
    let head = "pub trait T {} pub struct P; ";
    let e = periph(&toks(&format!("{head}B {{ R {{ 32 RwReg Shared Option; }} }}"))).unwrap_err();
    assert_eq!(e, invalid(11, OPTION_AND_SHARED));
    let e = periph(&toks(&format!("{head}B {{ R {{ @A 32 Shared; @C 32 Shared; }} }}"))).unwrap_err();
    assert_eq!(e, invalid(11, SHARED_WITH_VARIANTS));
    let e = periph(&toks(&format!("{head}B {{ R {{ @A 32 Option; @C 32 RReg; }} }}"))).unwrap_err();
    assert_eq!(e, invalid(11, OPTION_IN_ALL));
}

#[test]
fn periph_marker_when_no_register_is_held() {
    let p = periph(&toks("pub trait T {} pub struct P; B { R { 32 Shared; } }")).unwrap();
    assert!(p.marker);
    let p = periph(&toks("pub trait T {} pub struct P;")).unwrap();
    assert!(p.marker);
    assert!(p.variants.is_empty());
}

#[test]
fn periph_parse_errors() {
    let head = "pub trait T {} pub struct P; ";
    let e = periph(&toks(&format!("{head}B {{ R {{ 300 RReg; }} }}"))).unwrap_err();
    assert_eq!(e, MacroError { at: 13, kind: ErrorKind::IntOverflow });
    let e = periph(&toks(&format!("{head}B {{ R {{ 32 RReg; @A 32 RReg; }} }}"))).unwrap_err();
    assert_eq!(e, MacroError { at: 16, kind: ErrorKind::ExpectedIdent });
    let e = periph(&toks("trait T {}")).unwrap_err();
    assert_eq!(e, MacroError { at: 0, kind: ErrorKind::ExpectedKeyword("pub") });
}

const MAP_HEAD: &str = "pub macro periph_x; pub struct XPeriph; impl XMap for XPeriph {} r; crate; ";

#[test]
fn periph_map_plans_fields() {
    let t = toks(
        "pub macro periph_sys_tick; pub struct SysTickPeriph; \
         impl SysTickMap for SysTickPeriph {} drone_cortexm::map::reg; crate; \
         STK { CTRL { CTRL; COUNTFLAG { COUNTFLAG } ENABLE { ENABLE Option } TICKINT {} } }",
    );
    assert!(!periph_map_panics(&t));
    let p = periph_map(&t).unwrap();
    assert_eq!(p.input.macro_ident, 2);
    assert_eq!(p.input.trait_ident, 9);
    assert_eq!(p.input.root_path, Span { start: 14, end: 21 });
    assert!(p.input.macro_root_path.is_none());
    assert_eq!(p.periph_struct, "SysTickPeriph");
    assert_eq!(p.variants.len(), 1);
    let v = &p.variants[0];
    assert!(v.first && !v.shared && !v.option);
    assert_eq!(v.snake, "stk_ctrl");
    assert_eq!(v.name, "StkCtrl");
    assert_eq!(v.block_module, "stk");
    assert_eq!(v.module.as_deref(), Some("ctrl"));
    assert_eq!(v.path_snake.as_deref(), Some("stk_ctrl"));
    assert!(v.from.is_none());
    assert!(v.others.is_empty());
    assert_eq!(v.fields.len(), 3);
    assert_eq!(v.fields[0].name, "StkCtrlCountflag");
    assert_eq!(v.fields[0].snake, "stk_ctrl_countflag");
    assert_eq!(v.fields[0].path, Some(("Countflag".to_string(), "countflag".to_string())));
    assert!(v.fields[1].option);
    assert!(v.fields[2].path.is_none());
    assert_eq!(v.fields[2].ident, "tickint");
}

#[test]
fn periph_map_variants_and_paths() {
    let t = toks(
        "pub macro periph_x; pub struct XPeriph; impl XMap for XPeriph {} r; crate a::b; \
         B { B1; R { @One R1 (B0 Two); @Two R2; } }",
    );
    let p = periph_map(&t).unwrap();
    assert_eq!(p.input.root_path, Span { start: 14, end: 15 });
    assert_eq!(p.input.macro_root_path, Some(Span { start: 17, end: 21 }));
    assert_eq!(p.periph_struct, "XPeriph");
    assert_eq!(p.variants.len(), 2);
    let a = &p.variants[0];
    assert_eq!(a.snake, "b_r_one");
    assert_eq!(a.name, "BROne");
    assert_eq!(a.block_module, "b1");
    assert_eq!(a.module.as_deref(), Some("r1"));
    assert_eq!(a.path_snake.as_deref(), Some("b1_r1"));
    assert_eq!(a.from.as_deref(), Some("b0_two"));
    assert_eq!(a.others.len(), 1);
    assert_eq!(a.others[0].variant, 1);
    assert_eq!(a.others[0].into_fn, "into_two");
    assert_eq!(a.others[0].module, "r2");
    assert_eq!(a.others[0].reg_into, "into_b1_r2");
    let b = &p.variants[1];
    assert!(!b.first);
    assert!(b.from.is_none());
    assert_eq!(b.others[0].reg_into, "into_b1_r1");
}

#[test]
fn periph_map_default_variant() {
    let p = periph_map(&toks(&format!("{MAP_HEAD}B {{ R {{ }} }}"))).unwrap();
    assert_eq!(p.variants.len(), 1);
    assert_eq!(p.variants[0].snake, "b_r");
    assert!(p.variants[0].module.is_none());
    assert!(p.variants[0].fields.is_empty());
}

#[test]
fn periph_map_panics_where_unwrapping_fails() {
    assert!(periph_map_panics(&toks(&format!("{MAP_HEAD}B {{ R {{ @One R1; @Two }} }}"))));
    assert!(periph_map_panics(&toks(
        "pub macro periph_x; pub struct XPeriph; impl Ma for XPeriph {} r; crate;"
    )));
    assert!(!periph_map_panics(&toks(&format!("{MAP_HEAD}B {{ R {{ @One R1 Foo; @Two }} }}"))));
}

#[test]
fn periph_map_errors() {
    let t = toks(&format!("{MAP_HEAD}B {{ R {{ R1 Foo; }} }}"));
    let foo = t.len() - 4;
    assert_eq!(periph_map(&t).unwrap_err(), MacroError { at: foo, kind: ErrorKind::Named(UNKNOWN_OPTION) });
    let t = toks(&format!("{MAP_HEAD}B {{ R {{ R1; F {{ F1 Bar }} }} }}"));
    let bar = t.len() - 4;
    assert_eq!(periph_map(&t).unwrap_err(), MacroError { at: bar, kind: ErrorKind::Named(UNKNOWN_OPTION) });
    let t = toks("pub macro foo; pub struct XPeriph;");
    assert_eq!(periph_map(&t).unwrap_err(), invalid(3, NOT_A_PERIPH_MACRO));
    let t = toks("pub macro periph_x; pub struct XPeriph; impl XMap for Other {}");
    assert_eq!(periph_map(&t).unwrap_err(), invalid(11, NOT_THE_STRUCT));
    let t = toks(&format!("{MAP_HEAD}B {{ R {{ R1 Shared Option; }} }}"));
    assert_eq!(periph_map(&t).unwrap_err().kind, ErrorKind::Invalid(OPTION_AND_SHARED));
}

#[test]
fn periph_singular_entries() {
    let t = toks(
        "pub macro periph_rcc; pub struct RccPeriph; drone_cortexm::map::reg; crate; \
         RCC { #[cfg(x)] AHBENR { GPIOAEN; TYPE; } CR; }",
    );
    let p = periph_singular(&t).unwrap();
    assert_eq!(p.input.struct_ident, 6);
    assert_eq!(p.input.root_path, Span { start: 8, end: 15 });
    assert_eq!(p.input.parts.regs[0].features, Span { start: 20, end: 27 });
    assert_eq!(p.entries.len(), 3);
    let e = &p.entries[0];
    assert_eq!(e.field, Some(0));
    assert_eq!(e.snake, "rcc_ahbenr_gpioaen");
    assert_eq!(e.reg_snake, "rcc_ahbenr");
    assert_eq!(e.field_type.as_deref(), Some("Gpioaen"));
    assert_eq!(e.field_ident.as_deref(), Some("gpioaen"));
    assert_eq!(p.entries[1].field_ident.as_deref(), Some("type_"));
    let c = &p.entries[2];
    assert_eq!(c.field, None);
    assert_eq!(c.snake, "rcc_cr");
    assert_eq!(c.block_module, "rcc");
    assert_eq!(c.reg_module, "cr");
    assert!(c.field_type.is_none());
}

#[test]
fn periph_singular_errors() {
    let t = toks("pub macro periph_rcc; pub struct Rcc; r; crate;");
    assert_eq!(periph_singular(&t).unwrap_err(), invalid(7, NOT_A_PERIPH_STRUCT));
    let t = toks("pub macro rcc; pub struct RccPeriph; r; crate;");
    assert_eq!(periph_singular(&t).unwrap_err().at, 3);
    let t = toks("pub macro periph_rcc; pub struct RccPeriph; r; crate; RCC { CR }");
    assert_eq!(periph_singular(&t).unwrap_err(), MacroError { at: 15, kind: ErrorKind::ExpectedGroup(Delim::Brace) });
}

#[test]
fn res_one_names_and_entries() {
    let t = toks(
        "#[doc = \"x\"] pub struct Rcc; drone_cortexm::map::reg; rcc; \
         RCC { CR; AHBENR { GPIOAEN; } }",
    );
    let p = res_one(&t).unwrap();
    assert_eq!(p.attrs, Span { start: 0, end: 6 });
    assert_eq!(p.ident, 8);
    assert_eq!(p.root_path, Span { start: 10, end: 17 });
    assert_eq!(p.macro_root_path, Some(Span { start: 18, end: 19 }));
    assert_eq!(p.macro_name, "res_rcc");
    assert_eq!(p.struct_name, "RccRes");
    assert_eq!(p.entries.len(), 2);
    assert_eq!(p.entries[0].snake, "rcc_cr");
    assert!(p.entries[0].field.is_none());
    assert_eq!(p.entries[1].snake, "rcc_ahbenr_gpioaen");
    assert_eq!(p.entries[1].reg_snake, "rcc_ahbenr");
}

#[test]
fn res_one_without_macro_root() {
    let p = res_one(&toks("struct Rcc; r;; RCC { CR; }")).unwrap();
    assert!(p.macro_root_path.is_none());
    assert_eq!(p.entries[0].reg_module, "cr");
    let e = res_one(&toks("struct Rcc; r; RCC { CR }")).unwrap_err();
    assert_eq!(e.kind, ErrorKind::ExpectedPunct(';'));
}

#[test]
fn res_plans_each_register() {
    let t = toks(
        "pub trait RccRes {} RCC { CR { 288 RwReg; HSEON { RwRwRegFieldBit } } \
         #[cfg(x)] PLL { 32 RReg Shared; } }",
    );
    let p = res(&t).unwrap();
    assert_eq!(p.trait_ident, 2);
    assert_eq!(p.struct_name, "RccResRes");
    assert_eq!(p.regs.len(), 2);
    let cr = &p.regs[0];
    assert_eq!(cr.size, 32);
    assert_eq!(cr.snake, "rcc_cr");
    assert_eq!(cr.name, "RccCr");
    assert_eq!(cr.fields[0].name, "RccCrHseon");
    assert_eq!(cr.fields[0].snake, "rcc_cr_hseon");
    assert!(p.regs[1].shared);
    assert_eq!(p.regs[1].traits, vec![27]);
}

#[test]
fn res_errors() {
    let e = res(&toks("pub trait R {} B { X { 32 Shared Option; } }")).unwrap_err();
    assert_eq!(e, invalid(7, OPTION_AND_SHARED));
    let e = res(&toks("pub trait R {} B { X { @A 32 RReg; } }")).unwrap_err();
    assert_eq!(e, MacroError { at: 9, kind: ErrorKind::ExpectedIntLit });
}

#[test]
fn override_value_reads_the_string() {
    assert_eq!(override_value(&toks("\"a\\nb\"")).unwrap(), "a\nb");
    assert_eq!(override_value(&toks("r\"raw\"")).unwrap(), "raw");
    assert_eq!(
        override_value(&toks("1")).unwrap_err(),
        MacroError { at: 0, kind: ErrorKind::ExpectedStrLit }
    );
    assert_eq!(
        override_value(&toks("\"a\" \"b\"")).unwrap_err(),
        MacroError { at: 1, kind: ErrorKind::Unexpected }
    );
}

#[test]
fn thr_static_reads_struct_array_and_fields() {
    let t = toks("pub struct Thr; extern static THREADS; pub foo: bool = false; bar: u32 = 1 + 2;");
    let p = thr_static(&t).unwrap();
    assert_eq!(p.ident, 2);
    assert_eq!(p.array, 6);
    assert_eq!(p.vis.kind, VisKind::Public);
    assert_eq!(p.fields.len(), 2);
    assert_eq!(p.fields[0].ident, 9);
    assert_eq!(p.fields[0].ty, Span { start: 11, end: 12 });
    assert_eq!(p.fields[1].init, Span { start: 19, end: 22 });
}

#[test]
fn thr_static_errors() {
    let t = toks("pub struct Thr; extern static THREADS; bar: u32 = 1");
    assert_eq!(thr_static(&t).unwrap_err(), MacroError { at: 8, kind: ErrorKind::Unexpected });
    let t = toks("pub struct Thr; static THREADS;");
    assert_eq!(thr_static(&t).unwrap_err(), MacroError { at: 4, kind: ErrorKind::ExpectedKeyword("extern") });
}
