//! Case conversions of identifiers, and the names that the macros build from
//! them. The conversions themselves are those of the `heck` and `Inflector`
//! crates; this module names their results and builds on them.

use heck::{ToShoutySnakeCase, ToSnakeCase, ToUpperCamelCase};
use inflector::Inflector;
use vstd::prelude::*;

verus! {

/// What `heck`'s `to_snake_case` makes of a string.
pub uninterp spec fn heck_snake(s: Seq<char>) -> Seq<char>;

/// What `heck`'s `to_shouty_snake_case` makes of a string.
pub uninterp spec fn heck_shouty_snake(s: Seq<char>) -> Seq<char>;

/// What `heck`'s `to_upper_camel_case` makes of a string.
pub uninterp spec fn heck_upper_camel(s: Seq<char>) -> Seq<char>;

/// What `Inflector`'s `to_snake_case` makes of a string.
pub uninterp spec fn inflector_snake(s: Seq<char>) -> Seq<char>;

/// What `Inflector`'s `to_pascal_case` makes of a string.
pub uninterp spec fn inflector_pascal(s: Seq<char>) -> Seq<char>;

/// What `Inflector`'s `to_screaming_snake_case` makes of a string.
pub uninterp spec fn inflector_screaming(s: Seq<char>) -> Seq<char>;

/// Calls `heck::ToSnakeCase::to_snake_case`; its result is a function of the
/// string alone, named `heck_snake`.
#[verifier::external_body]
pub fn to_snake_heck(s: &str) -> (r: String)
    ensures
        r@ == heck_snake(s@),
{
    ToSnakeCase::to_snake_case(s)
}

/// Calls `heck::ToShoutySnakeCase::to_shouty_snake_case`; its result is a
/// function of the string alone, named `heck_shouty_snake`.
#[verifier::external_body]
pub fn to_shouty_snake_heck(s: &str) -> (r: String)
    ensures
        r@ == heck_shouty_snake(s@),
{
    ToShoutySnakeCase::to_shouty_snake_case(s)
}

/// Calls `heck::ToUpperCamelCase::to_upper_camel_case`; its result is a
/// function of the string alone, named `heck_upper_camel`.
#[verifier::external_body]
pub fn to_upper_camel_heck(s: &str) -> (r: String)
    ensures
        r@ == heck_upper_camel(s@),
{
    ToUpperCamelCase::to_upper_camel_case(s)
}

/// Calls `inflector::Inflector::to_snake_case`; its result is a function of
/// the string alone, named `inflector_snake`.
#[verifier::external_body]
pub fn to_snake_inflector(s: &str) -> (r: String)
    ensures
        r@ == inflector_snake(s@),
{
    Inflector::to_snake_case(s)
}

/// Calls `inflector::Inflector::to_pascal_case`; its result is a function of
/// the string alone, named `inflector_pascal`.
#[verifier::external_body]
pub fn to_pascal_inflector(s: &str) -> (r: String)
    ensures
        r@ == inflector_pascal(s@),
{
    Inflector::to_pascal_case(s)
}

/// Calls `inflector::Inflector::to_screaming_snake_case`; its result is a
/// function of the string alone, named `inflector_screaming`.
#[verifier::external_body]
pub fn to_screaming_inflector(s: &str) -> (r: String)
    ensures
        r@ == inflector_screaming(s@),
{
    Inflector::to_screaming_snake_case(s)
}

/// The words reserved by Rust, which cannot name a module, a field or a
/// function.
pub open spec fn is_reserved(s: Seq<char>) -> bool {
    ||| s == "as"@ || s == "break"@ || s == "const"@ || s == "continue"@ || s == "crate"@
    ||| s == "else"@ || s == "enum"@ || s == "extern"@ || s == "false"@ || s == "fn"@
    ||| s == "for"@ || s == "if"@ || s == "impl"@ || s == "in"@ || s == "let"@
    ||| s == "loop"@ || s == "match"@ || s == "mod"@ || s == "move"@ || s == "mut"@
    ||| s == "pub"@ || s == "ref"@ || s == "return"@ || s == "self"@ || s == "Self"@
    ||| s == "static"@ || s == "struct"@ || s == "super"@ || s == "trait"@ || s == "true"@
    ||| s == "type"@ || s == "unsafe"@ || s == "use"@ || s == "where"@ || s == "while"@
    ||| s == "async"@ || s == "await"@ || s == "dyn"@ || s == "abstract"@ || s == "become"@
    ||| s == "box"@ || s == "do"@ || s == "final"@ || s == "macro"@ || s == "override"@
    ||| s == "priv"@ || s == "typeof"@ || s == "unsized"@ || s == "virtual"@ || s == "yield"@
    ||| s == "try"@
}

fn is_reserved_exec(s: &String) -> (r: bool)
    ensures
        r == is_reserved(s@),
{
    let words: [&str; 51] = [
        "as", "break", "const", "continue", "crate", "else", "enum", "extern", "false", "fn",
        "for", "if", "impl", "in", "let", "loop", "match", "mod", "move", "mut", "pub", "ref",
        "return", "self", "Self", "static", "struct", "super", "trait", "true", "type", "unsafe",
        "use", "where", "while", "async", "await", "dyn", "abstract", "become", "box", "do",
        "final", "macro", "override", "priv", "typeof", "unsized", "virtual", "yield", "try",
    ];
    proof {
        assert(words@[0]@ == "as"@);
        assert(words@[1]@ == "break"@);
        assert(words@[2]@ == "const"@);
        assert(words@[3]@ == "continue"@);
        assert(words@[4]@ == "crate"@);
        assert(words@[5]@ == "else"@);
        assert(words@[6]@ == "enum"@);
        assert(words@[7]@ == "extern"@);
        assert(words@[8]@ == "false"@);
        assert(words@[9]@ == "fn"@);
        assert(words@[10]@ == "for"@);
        assert(words@[11]@ == "if"@);
        assert(words@[12]@ == "impl"@);
        assert(words@[13]@ == "in"@);
        assert(words@[14]@ == "let"@);
        assert(words@[15]@ == "loop"@);
        assert(words@[16]@ == "match"@);
        assert(words@[17]@ == "mod"@);
        assert(words@[18]@ == "move"@);
        assert(words@[19]@ == "mut"@);
        assert(words@[20]@ == "pub"@);
        assert(words@[21]@ == "ref"@);
        assert(words@[22]@ == "return"@);
        assert(words@[23]@ == "self"@);
        assert(words@[24]@ == "Self"@);
        assert(words@[25]@ == "static"@);
        assert(words@[26]@ == "struct"@);
        assert(words@[27]@ == "super"@);
        assert(words@[28]@ == "trait"@);
        assert(words@[29]@ == "true"@);
        assert(words@[30]@ == "type"@);
        assert(words@[31]@ == "unsafe"@);
        assert(words@[32]@ == "use"@);
        assert(words@[33]@ == "where"@);
        assert(words@[34]@ == "while"@);
        assert(words@[35]@ == "async"@);
        assert(words@[36]@ == "await"@);
        assert(words@[37]@ == "dyn"@);
        assert(words@[38]@ == "abstract"@);
        assert(words@[39]@ == "become"@);
        assert(words@[40]@ == "box"@);
        assert(words@[41]@ == "do"@);
        assert(words@[42]@ == "final"@);
        assert(words@[43]@ == "macro"@);
        assert(words@[44]@ == "override"@);
        assert(words@[45]@ == "priv"@);
        assert(words@[46]@ == "typeof"@);
        assert(words@[47]@ == "unsized"@);
        assert(words@[48]@ == "virtual"@);
        assert(words@[49]@ == "yield"@);
        assert(words@[50]@ == "try"@);
        }
    let mut i: usize = 0;
    while i < 51
        invariant
            0 <= i <= 51,
            forall|k: int| 0 <= k < 51 ==> is_reserved((#[trigger] words@[k])@),
            forall|k: int| 0 <= k < i ==> s@ != (#[trigger] words@[k])@,
        decreases 51 - i,
    {
        if crate::token::eq_lit(s, words[i]) {
            assert(words@[i as int]@ == s@);
            return true;
        }
        i = i + 1;
    }
    false
}

/// A name that can stand as an identifier: a reserved word gets an
/// underscore appended, any other word stays as it is.
pub open spec fn unkeywordize(s: Seq<char>) -> Seq<char> {
    if is_reserved(s) {
        s + "_"@
    } else {
        s
    }
}

/// No reserved word ends with an underscore.
proof fn lemma_reserved_no_underscore(s: Seq<char>)
    requires
        is_reserved(s),
    ensures
        s.len() > 0,
        s.last() != '_',
{
    reveal_strlit("as");
    reveal_strlit("break");
    reveal_strlit("const");
    reveal_strlit("continue");
    reveal_strlit("crate");
    reveal_strlit("else");
    reveal_strlit("enum");
    reveal_strlit("extern");
    reveal_strlit("false");
    reveal_strlit("fn");
    reveal_strlit("for");
    reveal_strlit("if");
    reveal_strlit("impl");
    reveal_strlit("in");
    reveal_strlit("let");
    reveal_strlit("loop");
    reveal_strlit("match");
    reveal_strlit("mod");
    reveal_strlit("move");
    reveal_strlit("mut");
    reveal_strlit("pub");
    reveal_strlit("ref");
    reveal_strlit("return");
    reveal_strlit("self");
    reveal_strlit("Self");
    reveal_strlit("static");
    reveal_strlit("struct");
    reveal_strlit("super");
    reveal_strlit("trait");
    reveal_strlit("true");
    reveal_strlit("type");
    reveal_strlit("unsafe");
    reveal_strlit("use");
    reveal_strlit("where");
    reveal_strlit("while");
    reveal_strlit("async");
    reveal_strlit("await");
    reveal_strlit("dyn");
    reveal_strlit("abstract");
    reveal_strlit("become");
    reveal_strlit("box");
    reveal_strlit("do");
    reveal_strlit("final");
    reveal_strlit("macro");
    reveal_strlit("override");
    reveal_strlit("priv");
    reveal_strlit("typeof");
    reveal_strlit("unsized");
    reveal_strlit("virtual");
    reveal_strlit("yield");
    reveal_strlit("try");
}

/// What `unkeywordize` gives is never a reserved word, and a word that is
/// not reserved is kept as it is.
pub proof fn law_unkeywordize_not_reserved(s: Seq<char>)
    ensures
        !is_reserved(unkeywordize(s)),
        !is_reserved(s) ==> unkeywordize(s) == s,
{
    if is_reserved(s) {
        let t = s + "_"@;
        reveal_strlit("_");
        assert(t.last() == '_');
        if is_reserved(t) {
            lemma_reserved_no_underscore(t);
        }
    }
}

pub fn unkeywordize_exec(s: &String) -> (r: String)
    ensures
        r@ == unkeywordize(s@),
{
    let mut r = s.clone();
    if is_reserved_exec(s) {
        r.append("_");
    }
    r
}

/// The concatenation of two strings.
pub fn cat(a: &str, b: &str) -> (r: String)
    ensures
        r@ == a@ + b@,
{
    let r = String::from_str(a);
    r.concat(b)
}

/// The concatenation of three strings.
pub fn cat3(a: &str, b: &str, c: &str) -> (r: String)
    ensures
        r@ == a@ + b@ + c@,
{
    let r = String::from_str(a);
    let r = r.concat(b);
    r.concat(c)
}

/// The decimal digit `d`.
pub open spec fn digit_char(d: nat) -> char {
    ('0' as nat + d) as char
}

/// The decimal notation of `n`.
pub open spec fn decimal(n: nat) -> Seq<char>
    decreases n,
{
    if n < 10 {
        seq![digit_char(n)]
    } else {
        decimal(n / 10).push(digit_char(n % 10))
    }
}

fn digit_str(d: u8) -> (r: &'static str)
    requires
        d < 10,
    ensures
        r@ == seq![digit_char(d as nat)],
{
    proof {
        reveal_strlit("0");
        reveal_strlit("1");
        reveal_strlit("2");
        reveal_strlit("3");
        reveal_strlit("4");
        reveal_strlit("5");
        reveal_strlit("6");
        reveal_strlit("7");
        reveal_strlit("8");
        reveal_strlit("9");
    }
    let r = if d == 0 {
        "0"
    } else if d == 1 {
        "1"
    } else if d == 2 {
        "2"
    } else if d == 3 {
        "3"
    } else if d == 4 {
        "4"
    } else if d == 5 {
        "5"
    } else if d == 6 {
        "6"
    } else if d == 7 {
        "7"
    } else if d == 8 {
        "8"
    } else {
        "9"
    };
    assert(r@ =~= seq![digit_char(d as nat)]);
    r
}

/// The decimal notation of a count.
pub fn decimal_usize(n: usize) -> (r: String)
    ensures
        r@ == decimal(n as nat),
    decreases n,
{
    if n < 10 {
        String::from_str(digit_str(n as u8))
    } else {
        let mut r = decimal_usize(n / 10);
        let d = digit_str((n % 10) as u8);
        r.append(d);
        assert(r@ =~= decimal(n as nat));
        r
    }
}

/// The decimal notation of a 64-bit number.
pub fn decimal_u64(n: u64) -> (r: String)
    ensures
        r@ == decimal(n as nat),
    decreases n,
{
    if n < 10 {
        String::from_str(digit_str(n as u8))
    } else {
        let mut r = decimal_u64(n / 10);
        let d = digit_str((n % 10) as u8);
        r.append(d);
        assert(r@ =~= decimal(n as nat));
        r
    }
}

/// The decimal notation of a byte.
pub fn decimal_u8(n: u8) -> (r: String)
    ensures
        r@ == decimal(n as nat),
{
    proof {
        reveal_with_fuel(decimal, 3);
    }
    if n < 10 {
        String::from_str(digit_str(n))
    } else if n < 100 {
        let r = cat(digit_str(n / 10), digit_str(n % 10));
        assert(r@ =~= decimal(n as nat));
        r
    } else {
        let r = cat3(digit_str(n / 100), digit_str((n / 10) % 10), digit_str(n % 10));
        assert(decimal((n / 10) as nat) =~= decimal((n / 100) as nat).push(digit_char(((n / 10) % 10) as nat)));
        assert(r@ =~= decimal(n as nat));
        r
    }
}

} // verus!
