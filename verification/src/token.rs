//! A flat model of a macro's input: token trees laid out in one vector, a
//! group written as its opening delimiter, its contents and its closing
//! delimiter. Every parser of this crate reads such a vector between two
//! positions and answers with the position after what it consumed.

use vstd::prelude::*;

verus! {

/// The delimiter of a group.
#[derive(PartialEq, Eq, Structural, Clone, Copy, Debug)]
pub enum Delim {
    Paren,
    Brace,
    Bracket,
    Invisible,
}

/// One token of the flat model.
#[derive(Debug)]
pub enum Tok {
    /// An identifier or a keyword.
    Ident(String),
    /// A punctuation character; the flag tells whether the next character is
    /// joined to it (as `=` in `=>`).
    Punct(char, bool),
    /// A literal, as the Rust lexer wrote it.
    Literal(String),
    /// The start of a group.
    Open(Delim),
    /// The end of a group.
    Close(Delim),
}

/// Where parsing stopped, and why.
#[derive(PartialEq, Eq, Clone, Copy, Debug)]
pub enum ErrorKind {
    ExpectedIdent,
    ExpectedPunct(char),
    ExpectedPunct2(char, char),
    ExpectedKeyword(&'static str),
    ExpectedGroup(Delim),
    ExpectedIntLit,
    ExpectedStrLit,
    /// A token was left over where the input should have ended.
    Unexpected,
    /// An integer literal does not fit the type it is read as.
    IntOverflow,
    /// A key that the grammar does not know, in an entry `key => value`:
    /// the error is at the value, three tokens after the key.
    UnknownKey,
    /// A key that was given twice.
    MultipleKey(&'static str),
    /// A key that the grammar needs and that was not given.
    MissingKey(&'static str),
    /// A mode other than `r`, `rw` or `w`.
    InvalidMode,
    /// A rule of the macro that the input breaks; the text says which.
    Invalid(&'static str),
    /// A token that the grammar does not take: the text, followed by the
    /// token at the error's position in backquotes.
    Named(&'static str),
    /// A token that cannot follow the tokens of the span: the text, the
    /// tokens of the span in backquotes, then the token at the error's
    /// position.
    InvalidAfter(&'static str, Span),
}

/// An error and the position of the token it is reported at.
#[derive(PartialEq, Eq, Clone, Copy, Debug)]
pub struct MacroError {
    pub at: usize,
    pub kind: ErrorKind,
}

pub open spec fn err<T>(at: int, kind: ErrorKind) -> Result<T, MacroError> {
    Err(MacroError { at: at as usize, kind })
}

// ---------------------------------------------------------------------------
// Groups

/// The position of the token that closes the group opened at `from - 1`,
/// scanning from `from` with `depth` groups still open, within `[.., end)`.
pub open spec fn close_scan(toks: Seq<Tok>, from: int, end: int, depth: nat) -> Option<int>
    decreases end - from,
{
    if from >= end || from < 0 || from >= toks.len() {
        None
    } else {
        match toks[from] {
            Tok::Open(_) => close_scan(toks, from + 1, end, depth + 1),
            Tok::Close(_) => if depth <= 1 {
                Some(from)
            } else {
                close_scan(toks, from + 1, end, (depth - 1) as nat)
            },
            _ => close_scan(toks, from + 1, end, depth),
        }
    }
}

/// The position of the token that closes the group opened at `open`.
pub open spec fn close_of(toks: Seq<Tok>, open: int, end: int) -> Option<int> {
    close_scan(toks, open + 1, end, 1)
}

pub proof fn lemma_close_scan_bounds(toks: Seq<Tok>, from: int, end: int, depth: nat)
    ensures
        close_scan(toks, from, end, depth) matches Some(c) ==> from <= c < end && 0 <= from,
    decreases end - from,
{
    if from >= end || from < 0 || from >= toks.len() {
    } else {
        match toks[from] {
            Tok::Open(_) => lemma_close_scan_bounds(toks, from + 1, end, depth + 1),
            Tok::Close(_) => if depth > 1 {
                lemma_close_scan_bounds(toks, from + 1, end, (depth - 1) as nat)
            },
            _ => lemma_close_scan_bounds(toks, from + 1, end, depth),
        }
    }
}

/// Finds the token that closes the group opened at `open`.
pub fn find_close(toks: &Vec<Tok>, open: usize, end: usize) -> (r: Option<usize>)
    requires
        open < end,
    ensures
        r matches Some(c) ==> close_of(toks@, open as int, end as int) == Some(c as int),
        r is None ==> close_of(toks@, open as int, end as int) is None,
        r matches Some(c) ==> open < c < end,
{
    let mut i = open + 1;
    let mut depth: usize = 1;
    proof {
        lemma_close_scan_bounds(toks@, open + 1, end as int, 1);
    }
    while i < end && i < toks.len()
        invariant
            open < i <= end,
            1 <= depth <= i - open,
            close_of(toks@, open as int, end as int) == close_scan(
                toks@,
                i as int,
                end as int,
                depth as nat,
            ),
        decreases end - i,
    {
        match &toks[i] {
            Tok::Open(_) => {
                depth = depth + 1;
            },
            Tok::Close(_) => {
                if depth <= 1 {
                    return Some(i);
                }
                depth = depth - 1;
            },
            _ => {},
        }
        i = i + 1;
    }
    None
}

/// The position after the token tree that starts at `i`: a single token, or a
/// whole group.
pub open spec fn tree_end(toks: Seq<Tok>, i: int, end: int) -> Option<int> {
    if !(0 <= i < end && i < toks.len()) {
        None
    } else {
        match toks[i] {
            Tok::Open(_) => match close_of(toks, i, end) {
                Some(c) => Some(c + 1),
                None => None,
            },
            Tok::Close(_) => None,
            _ => Some(i + 1),
        }
    }
}

pub fn skip_tree(toks: &Vec<Tok>, i: usize, end: usize) -> (r: Option<usize>)
    ensures
        r matches Some(n) ==> tree_end(toks@, i as int, end as int) == Some(n as int) && i < n <= end,
        r is None ==> tree_end(toks@, i as int, end as int) is None,
{
    if i >= end || i >= toks.len() {
        return None;
    }
    match &toks[i] {
        Tok::Open(_) => match find_close(toks, i, end) {
            Some(c) => Some(c + 1),
            None => None,
        },
        Tok::Close(_) => None,
        _ => Some(i + 1),
    }
}

// ---------------------------------------------------------------------------
// Single tokens

pub open spec fn is_punct(toks: Seq<Tok>, i: int, end: int, c: char) -> bool {
    &&& 0 <= i < end && i < toks.len()
    &&& toks[i] matches Tok::Punct(ch, _) && ch == c
}

pub open spec fn is_joint_punct(toks: Seq<Tok>, i: int, end: int, c: char) -> bool {
    &&& 0 <= i < end && i < toks.len()
    &&& toks[i] matches Tok::Punct(ch, joint) && ch == c && joint
}

/// Two punctuation characters written together, as `=>` or `::`.
pub open spec fn is_punct2(toks: Seq<Tok>, i: int, end: int, c1: char, c2: char) -> bool {
    is_joint_punct(toks, i, end, c1) && is_punct(toks, i + 1, end, c2)
}

pub open spec fn is_ident_tok(toks: Seq<Tok>, i: int, end: int) -> bool {
    0 <= i < end && i < toks.len() && toks[i] is Ident
}

pub open spec fn ident_text(toks: Seq<Tok>, i: int) -> Seq<char> {
    if 0 <= i < toks.len() {
        match toks[i] {
            Tok::Ident(s) => s@,
            _ => Seq::empty(),
        }
    } else {
        Seq::empty()
    }
}

/// The text of the identifier at `i`; empty where there is none.
pub fn ident_string(toks: &Vec<Tok>, i: usize) -> (r: String)
    ensures
        r@ == ident_text(toks@, i as int),
{
    if i < toks.len() {
        match &toks[i] {
            Tok::Ident(s) => s.clone(),
            _ => String::new(),
        }
    } else {
        String::new()
    }
}

/// The identifier `word` (keyword or not) at `i`.
pub open spec fn is_word(toks: Seq<Tok>, i: int, end: int, word: Seq<char>) -> bool {
    is_ident_tok(toks, i, end) && ident_text(toks, i) == word
}

pub open spec fn is_open(toks: Seq<Tok>, i: int, end: int, d: Delim) -> bool {
    0 <= i < end && i < toks.len() && toks[i] == Tok::Open(d)
}

pub open spec fn is_literal_tok(toks: Seq<Tok>, i: int, end: int) -> bool {
    0 <= i < end && i < toks.len() && toks[i] is Literal
}

pub open spec fn literal_text(toks: Seq<Tok>, i: int) -> Seq<char> {
    if 0 <= i < toks.len() {
        match toks[i] {
            Tok::Literal(s) => s@,
            _ => Seq::empty(),
        }
    } else {
        Seq::empty()
    }
}

pub fn peek_punct(toks: &Vec<Tok>, i: usize, end: usize, c: char) -> (r: bool)
    ensures
        r == is_punct(toks@, i as int, end as int, c),
{
    if i < end && i < toks.len() {
        match &toks[i] {
            Tok::Punct(ch, _) => *ch == c,
            _ => false,
        }
    } else {
        false
    }
}

pub fn peek_joint_punct(toks: &Vec<Tok>, i: usize, end: usize, c: char) -> (r: bool)
    ensures
        r == is_joint_punct(toks@, i as int, end as int, c),
{
    if i < end && i < toks.len() {
        match &toks[i] {
            Tok::Punct(ch, joint) => *ch == c && *joint,
            _ => false,
        }
    } else {
        false
    }
}

pub fn peek_punct2(toks: &Vec<Tok>, i: usize, end: usize, c1: char, c2: char) -> (r: bool)
    ensures
        r == is_punct2(toks@, i as int, end as int, c1, c2),
{
    peek_joint_punct(toks, i, end, c1) && i + 1 < end && peek_punct(toks, i + 1, end, c2)
}

pub fn peek_ident(toks: &Vec<Tok>, i: usize, end: usize) -> (r: bool)
    ensures
        r == is_ident_tok(toks@, i as int, end as int),
{
    i < end && i < toks.len() && matches!(toks[i], Tok::Ident(_))
}

/// Whether the string `s` is the literal `lit`.
pub fn eq_lit(s: &String, lit: &str) -> (r: bool)
    ensures
        r == (s@ == lit@),
{
    let l = String::from_str(lit);
    *s == l
}

pub fn peek_word(toks: &Vec<Tok>, i: usize, end: usize, word: &str) -> (r: bool)
    ensures
        r == is_word(toks@, i as int, end as int, word@),
{
    if i < end && i < toks.len() {
        match &toks[i] {
            Tok::Ident(s) => eq_lit(s, word),
            _ => false,
        }
    } else {
        false
    }
}

pub fn peek_open(toks: &Vec<Tok>, i: usize, end: usize, d: Delim) -> (r: bool)
    ensures
        r == is_open(toks@, i as int, end as int, d),
{
    if i < end && i < toks.len() {
        match &toks[i] {
            Tok::Open(d2) => *d2 == d,
            _ => false,
        }
    } else {
        false
    }
}

// ---------------------------------------------------------------------------
// Operators

/// The punctuation character at `i` and whether it is joined to the next.
pub open spec fn punct_at(toks: Seq<Tok>, i: int) -> Option<(char, bool)> {
    if 0 <= i < toks.len() {
        match toks[i] {
            Tok::Punct(c, joint) => Some((c, joint)),
            _ => None,
        }
    } else {
        None
    }
}

/// The two characters written together make one operator (`::`, `->`,
/// `=>`, `==`, `<=`, `>>`, `+=`, `..` and the like).
pub open spec fn glues(a: char, b: char) -> bool {
    ||| a == ':' && b == ':'
    ||| a == '-' && b == '>'
    ||| a == '=' && (b == '>' || b == '=')
    ||| (a == '!' || a == '<' || a == '>' || a == '+' || a == '-' || a == '*' || a == '/' || a
        == '%' || a == '^' || a == '&' || a == '|') && b == '='
    ||| a == '&' && b == '&'
    ||| a == '|' && b == '|'
    ||| a == '<' && b == '<'
    ||| a == '>' && b == '>'
    ||| a == '.' && b == '.'
}

/// The character at `i` makes an operator with the one after it.
pub open spec fn glued_after(toks: Seq<Tok>, i: int) -> bool {
    match (punct_at(toks, i), punct_at(toks, i + 1)) {
        (Some((a, true)), Some((b, _))) => glues(a, b),
        _ => false,
    }
}

/// The character at `i` makes an operator with the one before it.
pub open spec fn glued_before(toks: Seq<Tok>, i: int) -> bool {
    i >= 1 && glued_after(toks, i - 1)
}

/// The character `c` stands at `i` as an operator of its own, not part of
/// a longer one.
pub open spec fn is_single(toks: Seq<Tok>, i: int, end: int, c: char) -> bool {
    is_punct(toks, i, end, c) && !glued_after(toks, i) && !glued_before(toks, i)
}

fn glues_exec(a: char, b: char) -> (r: bool)
    ensures
        r == glues(a, b),
{
    (a == ':' && b == ':') || (a == '-' && b == '>') || (a == '=' && (b == '>' || b == '='))
        || ((a == '!' || a == '<' || a == '>' || a == '+' || a == '-' || a == '*' || a == '/'
        || a == '%' || a == '^' || a == '&' || a == '|') && b == '=') || (a == '&' && b == '&')
        || (a == '|' && b == '|') || (a == '<' && b == '<') || (a == '>' && b == '>') || (a
        == '.' && b == '.')
}

pub fn glued_after_exec(toks: &Vec<Tok>, i: usize) -> (r: bool)
    ensures
        r == glued_after(toks@, i as int),
{
    if i < toks.len() && i + 1 < toks.len() {
        match (&toks[i], &toks[i + 1]) {
            (Tok::Punct(a, true), Tok::Punct(b, _)) => glues_exec(*a, *b),
            _ => false,
        }
    } else {
        false
    }
}

pub fn glued_before_exec(toks: &Vec<Tok>, i: usize) -> (r: bool)
    ensures
        r == glued_before(toks@, i as int),
{
    i >= 1 && glued_after_exec(toks, i - 1)
}

pub fn peek_single(toks: &Vec<Tok>, i: usize, end: usize, c: char) -> (r: bool)
    ensures
        r == is_single(toks@, i as int, end as int, c),
{
    peek_punct(toks, i, end, c) && !glued_after_exec(toks, i) && !glued_before_exec(toks, i)
}

// ---------------------------------------------------------------------------
// Keywords

/// The words that cannot stand as a plain identifier.
pub open spec fn is_keyword(s: Seq<char>) -> bool {
    ||| s == "_"@ || s == "abstract"@ || s == "as"@ || s == "become"@ || s == "box"@
    ||| s == "break"@ || s == "const"@ || s == "continue"@ || s == "crate"@ || s == "do"@
    ||| s == "else"@ || s == "enum"@ || s == "extern"@ || s == "false"@ || s == "final"@
    ||| s == "fn"@ || s == "for"@ || s == "if"@ || s == "impl"@ || s == "in"@
    ||| s == "let"@ || s == "loop"@ || s == "macro"@ || s == "match"@ || s == "mod"@
    ||| s == "move"@ || s == "mut"@ || s == "override"@ || s == "priv"@ || s == "pub"@
    ||| s == "ref"@ || s == "return"@ || s == "Self"@ || s == "self"@ || s == "static"@
    ||| s == "struct"@ || s == "super"@ || s == "trait"@ || s == "true"@ || s == "type"@
    ||| s == "typeof"@ || s == "unsafe"@ || s == "unsized"@ || s == "use"@ || s == "virtual"@
    ||| s == "where"@ || s == "while"@ || s == "yield"@
}

pub fn is_keyword_exec(s: &String) -> (r: bool)
    ensures
        r == is_keyword(s@),
{
    eq_lit(s, "_") || eq_lit(s, "abstract") || eq_lit(s, "as") || eq_lit(s, "become") || eq_lit(
        s,
        "box",
    ) || eq_lit(s, "break") || eq_lit(s, "const") || eq_lit(s, "continue") || eq_lit(s, "crate")
        || eq_lit(s, "do") || eq_lit(s, "else") || eq_lit(s, "enum") || eq_lit(s, "extern")
        || eq_lit(s, "false") || eq_lit(s, "final") || eq_lit(s, "fn") || eq_lit(s, "for")
        || eq_lit(s, "if") || eq_lit(s, "impl") || eq_lit(s, "in") || eq_lit(s, "let") || eq_lit(
        s,
        "loop",
    ) || eq_lit(s, "macro") || eq_lit(s, "match") || eq_lit(s, "mod") || eq_lit(s, "move")
        || eq_lit(s, "mut") || eq_lit(s, "override") || eq_lit(s, "priv") || eq_lit(s, "pub")
        || eq_lit(s, "ref") || eq_lit(s, "return") || eq_lit(s, "Self") || eq_lit(s, "self")
        || eq_lit(s, "static") || eq_lit(s, "struct") || eq_lit(s, "super") || eq_lit(s, "trait")
        || eq_lit(s, "true") || eq_lit(s, "type") || eq_lit(s, "typeof") || eq_lit(s, "unsafe")
        || eq_lit(s, "unsized") || eq_lit(s, "use") || eq_lit(s, "virtual") || eq_lit(s, "where")
        || eq_lit(s, "while") || eq_lit(s, "yield")
}

/// A plain identifier (not a keyword) at `i`.
pub open spec fn is_plain_ident(toks: Seq<Tok>, i: int, end: int) -> bool {
    is_ident_tok(toks, i, end) && !is_keyword(ident_text(toks, i))
}

pub fn peek_plain_ident(toks: &Vec<Tok>, i: usize, end: usize) -> (r: bool)
    ensures
        r == is_plain_ident(toks@, i as int, end as int),
{
    if i < end && i < toks.len() {
        match &toks[i] {
            Tok::Ident(s) => !is_keyword_exec(s),
            _ => false,
        }
    } else {
        false
    }
}

// ---------------------------------------------------------------------------
// Expectations: each answers the position after what it consumed.

pub open spec fn spec_expect_ident(toks: Seq<Tok>, i: int, end: int) -> Result<usize, MacroError> {
    if is_plain_ident(toks, i, end) {
        Ok((i + 1) as usize)
    } else {
        err(i, ErrorKind::ExpectedIdent)
    }
}

pub fn expect_ident(toks: &Vec<Tok>, i: usize, end: usize) -> (r: Result<usize, MacroError>)
    ensures
        r == spec_expect_ident(toks@, i as int, end as int),
{
    if peek_plain_ident(toks, i, end) {
        Ok(i + 1)
    } else {
        Err(MacroError { at: i, kind: ErrorKind::ExpectedIdent })
    }
}

pub open spec fn spec_expect_punct(toks: Seq<Tok>, i: int, end: int, c: char) -> Result<
    usize,
    MacroError,
> {
    if is_punct(toks, i, end, c) {
        Ok((i + 1) as usize)
    } else {
        err(i, ErrorKind::ExpectedPunct(c))
    }
}

pub fn expect_punct(toks: &Vec<Tok>, i: usize, end: usize, c: char) -> (r: Result<
    usize,
    MacroError,
>)
    ensures
        r == spec_expect_punct(toks@, i as int, end as int, c),
{
    if peek_punct(toks, i, end, c) {
        Ok(i + 1)
    } else {
        Err(MacroError { at: i, kind: ErrorKind::ExpectedPunct(c) })
    }
}

pub open spec fn spec_expect_punct2(toks: Seq<Tok>, i: int, end: int, c1: char, c2: char) -> Result<
    usize,
    MacroError,
> {
    if is_punct2(toks, i, end, c1, c2) {
        Ok((i + 2) as usize)
    } else {
        err(i, ErrorKind::ExpectedPunct2(c1, c2))
    }
}

pub fn expect_punct2(toks: &Vec<Tok>, i: usize, end: usize, c1: char, c2: char) -> (r: Result<
    usize,
    MacroError,
>)
    ensures
        r == spec_expect_punct2(toks@, i as int, end as int, c1, c2),
{
    if peek_punct2(toks, i, end, c1, c2) {
        Ok(i + 2)
    } else {
        Err(MacroError { at: i, kind: ErrorKind::ExpectedPunct2(c1, c2) })
    }
}

pub open spec fn spec_expect_word(toks: Seq<Tok>, i: int, end: int, word: &'static str) -> Result<
    usize,
    MacroError,
> {
    if is_word(toks, i, end, word@) {
        Ok((i + 1) as usize)
    } else {
        err(i, ErrorKind::ExpectedKeyword(word))
    }
}

pub fn expect_word(toks: &Vec<Tok>, i: usize, end: usize, word: &'static str) -> (r: Result<
    usize,
    MacroError,
>)
    ensures
        r == spec_expect_word(toks@, i as int, end as int, word),
{
    if peek_word(toks, i, end, word) {
        Ok(i + 1)
    } else {
        Err(MacroError { at: i, kind: ErrorKind::ExpectedKeyword(word) })
    }
}

/// A group with delimiter `d` at `i`: the position of its closing token.
pub open spec fn spec_expect_group(toks: Seq<Tok>, i: int, end: int, d: Delim) -> Result<
    usize,
    MacroError,
> {
    if is_open(toks, i, end, d) {
        match close_of(toks, i, end) {
            Some(c) => Ok(c as usize),
            None => err(i, ErrorKind::ExpectedGroup(d)),
        }
    } else {
        err(i, ErrorKind::ExpectedGroup(d))
    }
}

pub fn expect_group(toks: &Vec<Tok>, i: usize, end: usize, d: Delim) -> (r: Result<
    usize,
    MacroError,
>)
    ensures
        r == spec_expect_group(toks@, i as int, end as int, d),
        r matches Ok(c) ==> i < c < end,
{
    if peek_open(toks, i, end, d) {
        match find_close(toks, i, end) {
            Some(c) => Ok(c),
            None => Err(MacroError { at: i, kind: ErrorKind::ExpectedGroup(d) }),
        }
    } else {
        Err(MacroError { at: i, kind: ErrorKind::ExpectedGroup(d) })
    }
}

/// The input between `i` and `end` is exhausted.
pub open spec fn spec_expect_end(i: int, end: int) -> Result<(), MacroError> {
    if i >= end {
        Ok(())
    } else {
        err(i, ErrorKind::Unexpected)
    }
}

pub fn expect_end(i: usize, end: usize) -> (r: Result<(), MacroError>)
    ensures
        r == spec_expect_end(i as int, end as int),
{
    if i >= end {
        Ok(())
    } else {
        Err(MacroError { at: i, kind: ErrorKind::Unexpected })
    }
}

// ---------------------------------------------------------------------------
// Spans, attributes and visibility

/// A run of tokens `[start, end)` of the input.
#[derive(PartialEq, Eq, Structural, Clone, Copy, Debug)]
pub struct Span {
    pub start: usize,
    pub end: usize,
}

/// The outer attributes `#[..]` that start at `i`: the position after the
/// last of them.
pub open spec fn spec_outer_attrs(toks: Seq<Tok>, i: int, end: int) -> Result<usize, MacroError>
    decreases end - i,
{
    if is_punct(toks, i, end, '#') {
        match spec_expect_group(toks, i + 1, end, Delim::Bracket) {
            Ok(c) => if (c as int) > i && (c as int) < end {
                spec_outer_attrs(toks, c + 1, end)
            } else {
                Ok(i as usize)
            },
            Err(e) => Err(e),
        }
    } else {
        Ok(i as usize)
    }
}

pub fn outer_attrs(toks: &Vec<Tok>, i: usize, end: usize) -> (r: Result<usize, MacroError>)
    ensures
        r == spec_outer_attrs(toks@, i as int, end as int),
        r matches Ok(n) ==> i <= n && (i <= end ==> n <= end),
{
    let mut j = i;
    while peek_punct(toks, j, end, '#')
        invariant
            i <= j,
            i <= end ==> j <= end,
            spec_outer_attrs(toks@, i as int, end as int) == spec_outer_attrs(
                toks@,
                j as int,
                end as int,
            ),
        decreases end - j,
    {
        let c = expect_group(toks, j + 1, end, Delim::Bracket)?;
        j = c + 1;
    }
    Ok(j)
}

/// The attribute whose `#` stands at `i` has the one-segment path `name`:
/// its bracket holds `name` first, and no `::` after it.
pub open spec fn attr_named(toks: Seq<Tok>, i: int, end: int, name: Seq<char>) -> bool {
    &&& is_word(toks, i + 2, end, name)
    &&& !is_punct2(toks, i + 3, end, ':', ':')
}

pub fn attr_is_named(toks: &Vec<Tok>, i: usize, end: usize, name: &str) -> (r: bool)
    requires
        i + 3 <= usize::MAX,
    ensures
        r == attr_named(toks@, i as int, end as int, name@),
{
    peek_word(toks, i + 2, end, name) && !peek_punct2(toks, i + 3, end, ':', ':')
}

/// The kinds of visibility.
#[derive(PartialEq, Eq, Structural, Clone, Copy, Debug)]
pub enum VisKind {
    Inherited,
    Public,
    Crate,
    Restricted,
}

/// A visibility and the tokens that wrote it.
#[derive(PartialEq, Eq, Structural, Clone, Copy, Debug)]
pub struct Vis {
    pub kind: VisKind,
    pub span: Span,
}

pub open spec fn vis_of(kind: VisKind, start: int, end: int) -> Vis {
    Vis { kind, span: Span { start: start as usize, end: end as usize } }
}

/// What `( .. )` after `pub` at `p` holds makes it a restricted visibility:
/// exactly one of `crate`, `self`, `super`, or `in` followed by a path.
pub open spec fn is_restriction(toks: Seq<Tok>, p: int, c: int) -> bool {
    ||| (c == p + 2 && (is_word(toks, p + 1, c, "crate"@) || is_word(toks, p + 1, c, "self"@)
        || is_word(toks, p + 1, c, "super"@)))
    ||| is_word(toks, p + 1, c, "in"@)
}

/// A visibility at `i`; it never fails, an absent one is inherited.
pub open spec fn spec_vis(toks: Seq<Tok>, i: int, end: int) -> Vis {
    if is_open(toks, i, end, Delim::Invisible) && close_of(toks, i, end) == Some(i + 1) {
        vis_of(VisKind::Inherited, i, i + 2)
    } else if is_word(toks, i, end, "pub"@) {
        if is_open(toks, i + 1, end, Delim::Paren) {
            match close_of(toks, i + 1, end) {
                Some(c) => if is_restriction(toks, i + 1, c) {
                    vis_of(VisKind::Restricted, i, c + 1)
                } else {
                    vis_of(VisKind::Public, i, i + 1)
                },
                None => vis_of(VisKind::Public, i, i + 1),
            }
        } else {
            vis_of(VisKind::Public, i, i + 1)
        }
    } else if is_word(toks, i, end, "crate"@) && !is_punct2(toks, i + 1, end, ':', ':') {
        vis_of(VisKind::Crate, i, i + 1)
    } else {
        vis_of(VisKind::Inherited, i, i)
    }
}

pub fn parse_vis(toks: &Vec<Tok>, i: usize, end: usize) -> (r: Vis)
    ensures
        r == spec_vis(toks@, i as int, end as int),
        i <= r.span.end,
        i <= end ==> r.span.end <= end,
{
    if peek_open(toks, i, end, Delim::Invisible) {
        if let Some(c) = find_close(toks, i, end) {
            if c == i + 1 {
                return Vis { kind: VisKind::Inherited, span: Span { start: i, end: i + 2 } };
            }
        }
    }
    if peek_word(toks, i, end, "pub") {
        if peek_open(toks, i + 1, end, Delim::Paren) {
            if let Some(c) = find_close(toks, i + 1, end) {
                let restricted = (c == i + 3 && (peek_word(toks, i + 2, c, "crate") || peek_word(
                    toks,
                    i + 2,
                    c,
                    "self",
                ) || peek_word(toks, i + 2, c, "super"))) || peek_word(toks, i + 2, c, "in");
                if restricted {
                    return Vis { kind: VisKind::Restricted, span: Span { start: i, end: c + 1 } };
                }
            }
        }
        return Vis { kind: VisKind::Public, span: Span { start: i, end: i + 1 } };
    }
    if peek_word(toks, i, end, "crate") && !peek_punct2(toks, i + 1, end, ':', ':') {
        return Vis { kind: VisKind::Crate, span: Span { start: i, end: i + 1 } };
    }
    Vis { kind: VisKind::Inherited, span: Span { start: i, end: i } }
}

// ---------------------------------------------------------------------------
// Literals

pub open spec fn is_ascii_digit(c: char) -> bool {
    '0' <= c <= '9'
}

/// The value of `c` as a digit of `base`, where it is one.
pub open spec fn digit_value(c: char, base: nat) -> Option<nat> {
    if '0' <= c <= '9' {
        Some((c as nat - '0' as nat) as nat)
    } else if base > 10 && 'a' <= c <= 'f' {
        Some((c as nat - 'a' as nat + 10) as nat)
    } else if base > 10 && 'A' <= c <= 'F' {
        Some((c as nat - 'A' as nat + 10) as nat)
    } else {
        None
    }
}

pub open spec fn is_ident_start(c: char) -> bool {
    ('a' <= c <= 'z') || ('A' <= c <= 'Z') || c == '_'
}

pub open spec fn is_ident_continue(c: char) -> bool {
    is_ident_start(c) || is_ascii_digit(c)
}

/// The characters of `s` from `j` on form an (ASCII) identifier, or nothing.
pub open spec fn is_suffix(s: Seq<char>, j: int) -> bool {
    j >= s.len() || (is_ident_start(s[j]) && forall|k: int|
        j < k < s.len() ==> is_ident_continue(#[trigger] s[k]))
}

/// Scans the digits of an integer literal from `i` with the value `acc` read
/// so far: the value and where the digits end, or nothing where the text is
/// not an integer literal.
pub open spec fn int_digits(s: Seq<char>, i: int, base: nat, acc: nat) -> Option<(nat, int)>
    decreases s.len() - i,
{
    if i >= s.len() || i < 0 {
        Some((acc, i))
    } else if s[i] == '_' {
        int_digits(s, i + 1, base, acc)
    } else {
        match digit_value(s[i], base) {
            Some(d) => if d >= base {
                None
            } else {
                int_digits(s, i + 1, base, acc * base + d)
            },
            None => if base == 10 && (s[i] == '.' || s[i] == 'e' || s[i] == 'E') {
                None
            } else {
                Some((acc, i))
            },
        }
    }
}

/// Where the digits of the integer literal `s` start, and in which base.
pub open spec fn int_prefix(s: Seq<char>) -> Option<(int, nat)> {
    if s.len() >= 2 && s[0] == '0' && s[1] == 'x' {
        Some((2, 16))
    } else if s.len() >= 2 && s[0] == '0' && s[1] == 'o' {
        Some((2, 8))
    } else if s.len() >= 2 && s[0] == '0' && s[1] == 'b' {
        Some((2, 2))
    } else if s.len() >= 1 && is_ascii_digit(s[0]) {
        Some((0, 10))
    } else {
        None
    }
}

/// The value of the integer literal written `s` (with its base prefix,
/// underscores and type suffix), or nothing where `s` is no integer literal.
pub open spec fn int_lit_value(s: Seq<char>) -> Option<nat> {
    match int_prefix(s) {
        Some((start, base)) => match int_digits(s, start, base, 0) {
            Some((v, j)) => if is_suffix(s, j) {
                Some(v)
            } else {
                None
            },
            None => None,
        },
        None => None,
    }
}

/// What reading an integer literal found.
#[derive(PartialEq, Eq, Structural, Clone, Copy, Debug)]
pub enum IntLit {
    /// The text is no integer literal.
    NotInt,
    /// An integer literal with this value.
    Value(u64),
    /// An integer literal whose value exceeds `u64::MAX`.
    Huge,
}

pub open spec fn int_lit_matches(r: IntLit, s: Seq<char>) -> bool {
    match r {
        IntLit::NotInt => int_lit_value(s) is None,
        IntLit::Value(v) => int_lit_value(s) == Some(v as nat),
        IntLit::Huge => int_lit_value(s) matches Some(v) && v > u64::MAX,
    }
}

proof fn lemma_int_digits_grows(s: Seq<char>, i: int, base: nat, acc: nat)
    requires
        base >= 2,
    ensures
        int_digits(s, i, base, acc) matches Some((v, _)) ==> v >= acc,
    decreases s.len() - i,
{
    if i >= s.len() || i < 0 {
    } else if s[i] == '_' {
        lemma_int_digits_grows(s, i + 1, base, acc);
    } else {
        match digit_value(s[i], base) {
            Some(d) => if d < base {
                assert(acc * base + d >= acc) by (nonlinear_arith)
                    requires
                        base >= 2,
                ;
                lemma_int_digits_grows(s, i + 1, base, acc * base + d);
            },
            None => {},
        }
    }
}

proof fn lemma_int_digits_end(s: Seq<char>, i: int, base: nat, acc: nat)
    ensures
        int_digits(s, i, base, acc) matches Some((_, j)) ==> (i >= 0 && i <= s.len() ==> i <= j
            <= s.len()),
    decreases s.len() - i,
{
    if i >= s.len() || i < 0 {
    } else if s[i] == '_' {
        lemma_int_digits_end(s, i + 1, base, acc);
    } else {
        match digit_value(s[i], base) {
            Some(d) => if d < base {
                lemma_int_digits_end(s, i + 1, base, acc * base + d);
            },
            None => {},
        }
    }
}

fn digit_value_exec(c: char, base: u32) -> (r: Option<u32>)
    ensures
        r matches Some(d) ==> digit_value(c, base as nat) == Some(d as nat) && d < 16,
        r is None ==> digit_value(c, base as nat) is None,
{
    if '0' <= c && c <= '9' {
        Some((c as u32) - ('0' as u32))
    } else if base > 10 && 'a' <= c && c <= 'f' {
        Some((c as u32) - ('a' as u32) + 10)
    } else if base > 10 && 'A' <= c && c <= 'F' {
        Some((c as u32) - ('A' as u32) + 10)
    } else {
        None
    }
}

fn is_suffix_exec(s: &str, j: usize) -> (r: bool)
    requires
        j <= s@.len(),
    ensures
        r == is_suffix(s@, j as int),
{
    let n = s.unicode_len();
    if j >= n {
        return true;
    }
    let c0 = s.get_char(j);
    if !(('a' <= c0 && c0 <= 'z') || ('A' <= c0 && c0 <= 'Z') || c0 == '_') {
        return false;
    }
    let mut k = j + 1;
    while k < n
        invariant
            n == s@.len(),
            j < k <= n,
            forall|m: int| j < m < k ==> is_ident_continue(#[trigger] s@[m]),
        decreases n - k,
    {
        let c = s.get_char(k);
        if !(('a' <= c && c <= 'z') || ('A' <= c && c <= 'Z') || c == '_' || ('0' <= c && c
            <= '9')) {
            return false;
        }
        k = k + 1;
    }
    true
}

/// Where the digits of the integer literal `s` end (its suffix starts).
pub open spec fn int_lit_end(s: Seq<char>) -> Option<int> {
    match int_prefix(s) {
        Some((start, base)) => match int_digits(s, start, base, 0) {
            Some((_, j)) => Some(j),
            None => None,
        },
        None => None,
    }
}

/// Reads the integer literal written `text`, and where its digits end.
pub fn scan_int_lit(text: &String) -> (r: (IntLit, usize))
    ensures
        int_lit_matches(r.0, text@),
        !(r.0 is NotInt) ==> int_lit_end(text@) == Some(r.1 as int),
{
    let s = text.as_str();
    let n = s.unicode_len();
    let (start, base): (usize, u32) = if n >= 2 && s.get_char(0) == '0' && s.get_char(1) == 'x' {
        (2, 16)
    } else if n >= 2 && s.get_char(0) == '0' && s.get_char(1) == 'o' {
        (2, 8)
    } else if n >= 2 && s.get_char(0) == '0' && s.get_char(1) == 'b' {
        (2, 2)
    } else if n >= 1 && '0' <= s.get_char(0) && s.get_char(0) <= '9' {
        (0, 10)
    } else {
        return (IntLit::NotInt, 0);
    };
    assert(int_prefix(s@) == Some((start as int, base as nat)));
    let mut i = start;
    let mut acc: u64 = 0;
    let mut huge = false;
    let mut stop = false;
    let ghost mut gacc: nat = 0;
    proof {
        lemma_int_digits_grows(s@, start as int, base as nat, 0);
    }
    while i < n && !stop
        invariant
            n == s@.len(),
            s@ == text@,
            start <= i <= n,
            base == 16 || base == 8 || base == 2 || base == 10,
            int_prefix(s@) == Some((start as int, base as nat)),
            int_digits(s@, start as int, base as nat, 0) == int_digits(
                s@,
                i as int,
                base as nat,
                gacc,
            ),
            !huge ==> gacc == acc as nat,
            huge ==> gacc > u64::MAX,
            stop ==> i < n && s@[i as int] != '_' && digit_value(s@[i as int], base as nat) is None
                && !(base == 10 && (s@[i as int] == '.' || s@[i as int] == 'e' || s@[i as int]
                == 'E')),
        decreases (n - i) * 2 + (if stop { 0int } else { 1int }),
    {
        let c = s.get_char(i);
        if c == '_' {
            i = i + 1;
        } else {
            match digit_value_exec(c, base) {
                Some(d) => {
                    if d >= base {
                        return (IntLit::NotInt, 0);
                    }
                    proof {
                        assert(gacc * base + d >= gacc) by (nonlinear_arith)
                            requires
                                base >= 2,
                        ;
                        gacc = gacc * (base as nat) + (d as nat);
                    }
                    if !huge {
                        match acc.checked_mul(base as u64) {
                            Some(m) => match m.checked_add(d as u64) {
                                Some(a) => {
                                    acc = a;
                                },
                                None => {
                                    huge = true;
                                },
                            },
                            None => {
                                huge = true;
                                assert(gacc > u64::MAX) by (nonlinear_arith)
                                    requires
                                        gacc == acc * base + d,
                                        acc * base > u64::MAX,
                                ;
                            },
                        }
                    }
                    i = i + 1;
                },
                None => {
                    if base == 10 && (c == '.' || c == 'e' || c == 'E') {
                        return (IntLit::NotInt, 0);
                    }
                    stop = true;
                },
            }
        }
    }
    proof {
        lemma_int_digits_end(s@, i as int, base as nat, gacc);
    }
    if !is_suffix_exec(s, i) {
        return (IntLit::NotInt, 0);
    }
    assert(int_digits(s@, i as int, base as nat, gacc) == Some((gacc, i as int)));
    assert(int_lit_value(s@) == Some(gacc));
    if huge {
        (IntLit::Huge, i)
    } else {
        (IntLit::Value(acc), i)
    }
}

/// Reads the integer literal written `text`.
pub fn read_int_lit(text: &String) -> (r: IntLit)
    ensures
        int_lit_matches(r, text@),
{
    scan_int_lit(text).0
}

/// The literal at `i` is a string literal.
pub open spec fn is_str_lit(toks: Seq<Tok>, i: int, end: int) -> bool {
    is_literal_tok(toks, i, end) && {
        let s = literal_text(toks, i);
        s.len() >= 1 && (s[0] == '"' || (s.len() >= 2 && s[0] == 'r' && (s[1] == '"' || s[1]
            == '#')))
    }
}

pub fn peek_str_lit(toks: &Vec<Tok>, i: usize, end: usize) -> (r: bool)
    ensures
        r == is_str_lit(toks@, i as int, end as int),
{
    if i < end && i < toks.len() {
        match &toks[i] {
            Tok::Literal(text) => {
                let s = text.as_str();
                let n = s.unicode_len();
                n >= 1 && (s.get_char(0) == '"' || (n >= 2 && s.get_char(0) == 'r' && (s.get_char(
                    1,
                ) == '"' || s.get_char(1) == '#')))
            },
            _ => false,
        }
    } else {
        false
    }
}

/// An integer literal at `i`.
pub open spec fn is_int_lit(toks: Seq<Tok>, i: int, end: int) -> bool {
    is_literal_tok(toks, i, end) && int_lit_value(literal_text(toks, i)) is Some
}

/// The value of the integer literal at `i`, read as by `read_int_lit`.
pub fn int_lit_at(toks: &Vec<Tok>, i: usize, end: usize) -> (r: IntLit)
    ensures
        is_literal_tok(toks@, i as int, end as int) ==> int_lit_matches(
            r,
            literal_text(toks@, i as int),
        ),
        !is_literal_tok(toks@, i as int, end as int) ==> r == IntLit::NotInt,
{
    if i < end && i < toks.len() {
        match &toks[i] {
            Tok::Literal(text) => read_int_lit(text),
            _ => IntLit::NotInt,
        }
    } else {
        IntLit::NotInt
    }
}

pub open spec fn spec_expect_int_lit(toks: Seq<Tok>, i: int, end: int) -> Result<usize, MacroError> {
    if is_int_lit(toks, i, end) {
        Ok((i + 1) as usize)
    } else {
        err(i, ErrorKind::ExpectedIntLit)
    }
}

pub fn expect_int_lit(toks: &Vec<Tok>, i: usize, end: usize) -> (r: Result<usize, MacroError>)
    ensures
        r == spec_expect_int_lit(toks@, i as int, end as int),
{
    match int_lit_at(toks, i, end) {
        IntLit::NotInt => Err(MacroError { at: i, kind: ErrorKind::ExpectedIntLit }),
        _ => Ok(i + 1),
    }
}

// ---------------------------------------------------------------------------
// Paths and types

/// A path segment: an identifier, `self`, `super`, `crate` or `Self`.
pub open spec fn is_segment(toks: Seq<Tok>, i: int, end: int) -> bool {
    is_plain_ident(toks, i, end) || is_word(toks, i, end, "self"@) || is_word(
        toks,
        i,
        end,
        "super"@,
    ) || is_word(toks, i, end, "crate"@) || is_word(toks, i, end, "Self"@)
}

pub fn peek_segment(toks: &Vec<Tok>, i: usize, end: usize) -> (r: bool)
    ensures
        r == is_segment(toks@, i as int, end as int),
{
    peek_plain_ident(toks, i, end) || peek_word(toks, i, end, "self") || peek_word(
        toks,
        i,
        end,
        "super",
    ) || peek_word(toks, i, end, "crate") || peek_word(toks, i, end, "Self")
}

/// The segments `:: seg` that follow a path's first segment, from `i`.
pub open spec fn path_rest(toks: Seq<Tok>, i: int, end: int) -> int
    decreases end - i,
{
    if i < end && is_punct2(toks, i, end, ':', ':') && is_segment(toks, i + 2, end) {
        path_rest(toks, i + 3, end)
    } else {
        i
    }
}

/// A path at `i` (`::`? segment (`::` segment)*, without generic arguments):
/// the position after it.
pub open spec fn spec_path(toks: Seq<Tok>, i: int, end: int) -> Result<usize, MacroError> {
    let first = if is_punct2(toks, i, end, ':', ':') {
        i + 2
    } else {
        i
    };
    if is_segment(toks, first, end) {
        Ok(path_rest(toks, first + 1, end) as usize)
    } else {
        err(first, ErrorKind::ExpectedIdent)
    }
}

pub fn parse_path(toks: &Vec<Tok>, i: usize, end: usize) -> (r: Result<usize, MacroError>)
    ensures
        r == spec_path(toks@, i as int, end as int),
        r matches Ok(n) ==> i < n <= end,
{
    let first = if peek_punct2(toks, i, end, ':', ':') {
        i + 2
    } else {
        i
    };
    if !peek_segment(toks, first, end) {
        return Err(MacroError { at: first, kind: ErrorKind::ExpectedIdent });
    }
    let mut j = first + 1;
    while j < end && peek_punct2(toks, j, end, ':', ':') && j + 2 < end && peek_segment(
        toks,
        j + 2,
        end,
    )
        invariant
            first < j <= end,
            path_rest(toks@, first + 1, end as int) == path_rest(toks@, j as int, end as int),
        decreases end - j,
    {
        j = j + 3;
    }
    Ok(j)
}

/// The angle-bracket depth after the token at `i`, given the depth before
/// it: `<` opens, `>` closes unless it ends `->`.
pub open spec fn angle_step(toks: Seq<Tok>, i: int, depth: nat) -> nat {
    if toks[i] matches Tok::Punct(c, _) && c == '<' {
        depth + 1
    } else if toks[i] matches Tok::Punct(c, _) && c == '>' {
        if i > 0 && is_joint_punct(toks, i - 1, toks.len() as int, '-') {
            depth
        } else if depth > 0 {
            (depth - 1) as nat
        } else {
            0
        }
    } else {
        depth
    }
}

/// Where the run of token trees that starts at `i` ends: at the first
/// `stop` character outside angle brackets (counted where `angles` holds),
/// or at the end of the input.
pub open spec fn type_scan(
    toks: Seq<Tok>,
    i: int,
    end: int,
    depth: nat,
    stop: char,
    angles: bool,
) -> Option<int>
    decreases end - i,
{
    if i >= end || i < 0 {
        Some(end)
    } else if depth == 0 && is_punct(toks, i, end, stop) {
        Some(i)
    } else {
        match tree_end(toks, i, end) {
            Some(n) => if n > i && n <= end {
                type_scan(
                    toks,
                    n,
                    end,
                    if angles {
                        angle_step(toks, i, depth)
                    } else {
                        0
                    },
                    stop,
                    angles,
                )
            } else {
                None
            },
            None => None,
        }
    }
}

/// A type at `i`: a non-empty run of token trees up to a `stop` character
/// at angle depth zero, or the end of the input.
pub open spec fn spec_type(toks: Seq<Tok>, i: int, end: int, stop: char) -> Result<
    usize,
    MacroError,
> {
    spec_run(toks, i, end, stop, true)
}

/// An expression at `i`: a non-empty run of token trees up to a `stop`
/// character, or the end of the input.
pub open spec fn spec_expr(toks: Seq<Tok>, i: int, end: int, stop: char) -> Result<
    usize,
    MacroError,
> {
    spec_run(toks, i, end, stop, false)
}

pub open spec fn spec_run(toks: Seq<Tok>, i: int, end: int, stop: char, angles: bool) -> Result<
    usize,
    MacroError,
> {
    match type_scan(toks, i, end, 0, stop, angles) {
        Some(n) => if n > i {
            Ok(n as usize)
        } else {
            err(i, ErrorKind::ExpectedIdent)
        },
        None => err(i, ErrorKind::Unexpected),
    }
}

fn angle_step_exec(toks: &Vec<Tok>, i: usize, depth: usize) -> (r: usize)
    requires
        i < toks@.len(),
        depth < i + 1,
    ensures
        r as nat == angle_step(toks@, i as int, depth as nat),
        r <= i + 1,
{
    let _len = toks.len();
    match &toks[i] {
        Tok::Punct(c, _) => {
            if *c == '<' {
                depth + 1
            } else if *c == '>' {
                if i > 0 && peek_joint_punct(toks, i - 1, toks.len(), '-') {
                    depth
                } else if depth > 0 {
                    depth - 1
                } else {
                    0
                }
            } else {
                depth
            }
        },
        _ => depth,
    }
}

pub fn parse_type(toks: &Vec<Tok>, i: usize, end: usize, stop: char) -> (r: Result<
    usize,
    MacroError,
>)
    ensures
        r == spec_type(toks@, i as int, end as int, stop),
        r matches Ok(n) ==> i < n <= end,
{
    parse_run(toks, i, end, stop, true)
}

pub fn parse_expr(toks: &Vec<Tok>, i: usize, end: usize, stop: char) -> (r: Result<
    usize,
    MacroError,
>)
    ensures
        r == spec_expr(toks@, i as int, end as int, stop),
        r matches Ok(n) ==> i < n <= end,
{
    parse_run(toks, i, end, stop, false)
}

fn parse_run(toks: &Vec<Tok>, i: usize, end: usize, stop: char, angles: bool) -> (r: Result<
    usize,
    MacroError,
>)
    ensures
        r == spec_run(toks@, i as int, end as int, stop, angles),
        r matches Ok(n) ==> i < n <= end,
{
    let mut j = i;
    let mut depth: usize = 0;
    while j < end && !(depth == 0 && peek_punct(toks, j, end, stop))
        invariant
            i <= j,
            j <= end || j == i,
            depth <= j,
            type_scan(toks@, i as int, end as int, 0, stop, angles) == type_scan(
                toks@,
                j as int,
                end as int,
                depth as nat,
                stop,
                angles,
            ),
        decreases end - j,
    {
        match skip_tree(toks, j, end) {
            Some(n) => {
                if angles {
                    depth = angle_step_exec(toks, j, depth);
                } else {
                    depth = 0;
                }
                j = n;
            },
            None => {
                return Err(MacroError { at: i, kind: ErrorKind::Unexpected });
            },
        }
    }
    let stop_at = if j >= end {
        end
    } else {
        j
    };
    if stop_at > i {
        Ok(stop_at)
    } else {
        Err(MacroError { at: i, kind: ErrorKind::ExpectedIdent })
    }
}

// ---------------------------------------------------------------------------
// Attributes by name

/// The positions of the `#` of the attributes in the run that starts at `i`
/// whose path is the single word `name` (where `named` holds) or is not
/// (where it does not), in their order.
pub open spec fn attrs_by_name(toks: Seq<Tok>, i: int, end: int, name: Seq<char>, named: bool) -> Seq<usize>
    decreases end - i,
{
    if !is_punct(toks, i, end, '#') {
        Seq::empty()
    } else {
        match close_of(toks, i + 1, end) {
            Some(c) => {
                let rest = if c + 1 > i && c + 1 <= end {
                    attrs_by_name(toks, c + 1, end, name, named)
                } else {
                    Seq::empty()
                };
                if attr_named(toks, i, end, name) == named {
                    seq![i as usize] + rest
                } else {
                    rest
                }
            },
            None => Seq::empty(),
        }
    }
}

pub open spec fn named_attrs(toks: Seq<Tok>, i: int, end: int, name: Seq<char>) -> Seq<usize> {
    attrs_by_name(toks, i, end, name, true)
}

/// Collects the attributes of the run that starts at `i` whose path is
/// `name` (where `named` holds) or is not.
pub fn find_attrs_by_name(toks: &Vec<Tok>, i: usize, end: usize, name: &str, named: bool) -> (r: Vec<usize>)
    ensures
        r@ == attrs_by_name(toks@, i as int, end as int, name@, named),
{
    let mut out: Vec<usize> = Vec::new();
    let mut j = i;
    while peek_punct(toks, j, end, '#')
        invariant
            attrs_by_name(toks@, i as int, end as int, name@, named) == out@ + attrs_by_name(
                toks@,
                j as int,
                end as int,
                name@,
                named,
            ),
        decreases end - j,
    {
        if j + 1 >= end {
            assert(attrs_by_name(toks@, j as int, end as int, name@, named) =~= Seq::<usize>::empty());
            assert(out@ + Seq::<usize>::empty() =~= out@);
            return out;
        }
        match find_close(toks, j + 1, end) {
            Some(c) => {
                let is_named = end >= 2 && j < end - 2 && attr_is_named(toks, j, end, name);
                let ghost before = out@;
                if is_named == named {
                    out.push(j);
                }
                proof {
                    let rest = attrs_by_name(toks@, c + 1, end as int, name@, named);
                    if is_named == named {
                        assert(before + (seq![j as usize] + rest) =~= out@ + rest);
                    }
                }
                j = c + 1;
            },
            None => {
                assert(out@ + Seq::<usize>::empty() =~= out@);
                return out;
            },
        }
    }
    assert(out@ + Seq::<usize>::empty() =~= out@);
    out
}

pub fn find_named_attrs(toks: &Vec<Tok>, i: usize, end: usize, name: &str) -> (r: Vec<usize>)
    ensures
        r@ == named_attrs(toks@, i as int, end as int, name@),
{
    find_attrs_by_name(toks, i, end, name, true)
}


// ---------------------------------------------------------------------------
// Building token sequences

/// A token as a value of specification: identifiers and literals by their
/// text.
pub enum TokV {
    Ident(Seq<char>),
    Punct(char, bool),
    Literal(Seq<char>),
    Open(Delim),
    Close(Delim),
}

pub open spec fn tok_view(t: Tok) -> TokV {
    match t {
        Tok::Ident(s) => TokV::Ident(s@),
        Tok::Punct(c, j) => TokV::Punct(c, j),
        Tok::Literal(s) => TokV::Literal(s@),
        Tok::Open(d) => TokV::Open(d),
        Tok::Close(d) => TokV::Close(d),
    }
}

pub open spec fn toks_view(s: Seq<Tok>) -> Seq<TokV> {
    s.map_values(|t: Tok| tok_view(t))
}

/// A copy of the token `t`.
pub fn copy_tok(t: &Tok) -> (r: Tok)
    ensures
        tok_view(r) == tok_view(*t),
{
    match t {
        Tok::Ident(s) => Tok::Ident(s.clone()),
        Tok::Punct(c, j) => Tok::Punct(*c, *j),
        Tok::Literal(s) => Tok::Literal(s.clone()),
        Tok::Open(d) => Tok::Open(*d),
        Tok::Close(d) => Tok::Close(*d),
    }
}

/// Adds the token `t` to `out`.
pub fn push_tok(out: &mut Vec<Tok>, t: Tok)
    ensures
        toks_view(final(out)@) == toks_view(old(out)@).push(tok_view(t)),
{
    let ghost before = old(out)@;
    out.push(t);
    assert(toks_view(out@) =~= toks_view(before).push(tok_view(t)));
}

/// Adds the identifier `w` to `out`.
pub fn push_word(out: &mut Vec<Tok>, w: &str)
    ensures
        toks_view(final(out)@) == toks_view(old(out)@).push(TokV::Ident(w@)),
{
    push_tok(out, Tok::Ident(String::from_str(w)));
}

/// Adds copies of the tokens `[s, e)` of `toks` to `out`.
pub fn copy_span(toks: &Vec<Tok>, s: usize, e: usize, out: &mut Vec<Tok>)
    requires
        s <= e <= toks@.len(),
    ensures
        toks_view(final(out)@) == toks_view(old(out)@) + toks_view(toks@.subrange(s as int, e as int)),
{
    let ghost start = old(out)@;
    let mut k = s;
    assert(toks_view(toks@.subrange(s as int, s as int)) =~= Seq::<TokV>::empty());
    assert(toks_view(start) + Seq::<TokV>::empty() =~= toks_view(start));
    while k < e
        invariant
            s <= k <= e <= toks@.len(),
            toks_view(out@) == toks_view(start) + toks_view(toks@.subrange(s as int, k as int)),
        decreases e - k,
    {
        let t = copy_tok(&toks[k]);
        push_tok(out, t);
        proof {
            assert(toks@.subrange(s as int, k + 1) =~= toks@.subrange(s as int, k as int).push(toks@[k as int]));
            assert(toks_view(toks@.subrange(s as int, k + 1)) =~= toks_view(toks@.subrange(s as int, k as int)).push(tok_view(toks@[k as int])));
        }
        k = k + 1;
        assert(toks_view(out@) =~= toks_view(start) + toks_view(toks@.subrange(s as int, k as int)));
    }
}


/// The identifier `w`, as a sequence of one token.
pub open spec fn tw(w: Seq<char>) -> Seq<TokV> {
    seq![TokV::Ident(w)]
}

/// The punctuation character `c`, standing alone.
pub open spec fn tp(c: char) -> Seq<TokV> {
    seq![TokV::Punct(c, false)]
}

/// The two punctuation characters `a` and `b` written together, as `::`.
pub open spec fn tj(a: char, b: char) -> Seq<TokV> {
    seq![TokV::Punct(a, true), TokV::Punct(b, false)]
}

pub open spec fn topen(d: Delim) -> Seq<TokV> {
    seq![TokV::Open(d)]
}

pub open spec fn tclose(d: Delim) -> Seq<TokV> {
    seq![TokV::Close(d)]
}

/// Adds the word `w` to `out`.
pub fn emit_word(out: &mut Vec<Tok>, w: &str)
    ensures
        toks_view(final(out)@) == toks_view(old(out)@) + tw(w@),
{
    let ghost before = toks_view(old(out)@);
    push_word(out, w);
    assert(toks_view(out@) =~= before + tw(w@));
}

/// Adds the identifier `w` to `out`.
pub fn emit_string(out: &mut Vec<Tok>, w: &String)
    ensures
        toks_view(final(out)@) == toks_view(old(out)@) + tw(w@),
{
    let ghost before = toks_view(old(out)@);
    push_tok(out, Tok::Ident(w.clone()));
    assert(toks_view(out@) =~= before + tw(w@));
}

/// Adds the character `c`, standing alone, to `out`.
pub fn emit_punct(out: &mut Vec<Tok>, c: char)
    ensures
        toks_view(final(out)@) == toks_view(old(out)@) + tp(c),
{
    let ghost before = toks_view(old(out)@);
    push_tok(out, Tok::Punct(c, false));
    assert(toks_view(out@) =~= before + tp(c));
}

/// Adds the characters `a` and `b`, written together, to `out`.
pub fn emit_joint(out: &mut Vec<Tok>, a: char, b: char)
    ensures
        toks_view(final(out)@) == toks_view(old(out)@) + tj(a, b),
{
    let ghost before = toks_view(old(out)@);
    push_tok(out, Tok::Punct(a, true));
    push_tok(out, Tok::Punct(b, false));
    assert(toks_view(out@) =~= before + tj(a, b));
}

pub fn emit_open(out: &mut Vec<Tok>, d: Delim)
    ensures
        toks_view(final(out)@) == toks_view(old(out)@) + topen(d),
{
    let ghost before = toks_view(old(out)@);
    push_tok(out, Tok::Open(d));
    assert(toks_view(out@) =~= before + topen(d));
}

pub fn emit_close(out: &mut Vec<Tok>, d: Delim)
    ensures
        toks_view(final(out)@) == toks_view(old(out)@) + tclose(d),
{
    let ghost before = toks_view(old(out)@);
    push_tok(out, Tok::Close(d));
    assert(toks_view(out@) =~= before + tclose(d));
}

/// The tokens `[s, e)` of the input, where the span lies in it.
pub open spec fn span_toks(toks: Seq<Tok>, s: Span) -> Seq<TokV> {
    if s.start <= s.end <= toks.len() {
        toks_view(toks.subrange(s.start as int, s.end as int))
    } else {
        Seq::empty()
    }
}

/// Adds copies of the tokens of the span `s` of the input to `out`.
pub fn emit_span(toks: &Vec<Tok>, s: Span, out: &mut Vec<Tok>)
    ensures
        toks_view(final(out)@) == toks_view(old(out)@) + span_toks(toks@, s),
{
    if s.start <= s.end && s.end <= toks.len() {
        copy_span(toks, s.start, s.end, out);
    } else {
        assert(toks_view(out@) + Seq::<TokV>::empty() =~= toks_view(out@));
    }
}


/// After the name `method` in `s`, the first use of `marker` is followed by
/// `op`: `s` is `.. method .. marker op ..` with no token of `marker`'s
/// first kind between the method's name and that use.
pub open spec fn first_use_after(s: Seq<TokV>, method: Seq<char>, marker: Seq<TokV>, op: Seq<char>) -> bool {
    marker.len() > 0 && exists|a: Seq<TokV>, b: Seq<TokV>, c: Seq<TokV>|
        #[trigger] (a + tw(method) + b + marker + tw(op) + c) == s && !b.contains(marker[0])
}

/// The literal written `l`, as a sequence of one token.
pub open spec fn tl(l: Seq<char>) -> Seq<TokV> {
    seq![TokV::Literal(l)]
}

/// Adds the literal written `l` to `out`.
pub fn emit_literal(out: &mut Vec<Tok>, l: &str)
    ensures
        toks_view(final(out)@) == toks_view(old(out)@) + tl(l@),
{
    let ghost before = toks_view(old(out)@);
    push_tok(out, Tok::Literal(String::from_str(l)));
    assert(toks_view(out@) =~= before + tl(l@));
}

/// `#[inline(always)]`
pub open spec fn inline_always() -> Seq<TokV> {
    tp('#') + topen(Delim::Bracket) + tw("inline"@) + topen(Delim::Paren) + tw("always"@) + tclose(
        Delim::Paren,
    ) + tclose(Delim::Bracket)
}

/// Adds `#[inline(always)]` to `out`.
pub fn emit_inline_always(out: &mut Vec<Tok>)
    ensures
        toks_view(final(out)@) == toks_view(old(out)@) + inline_always(),
{
    let ghost before = toks_view(old(out)@);
    emit_punct(out, '#');
    emit_open(out, Delim::Bracket);
    emit_word(out, "inline");
    emit_open(out, Delim::Paren);
    emit_word(out, "always");
    emit_close(out, Delim::Paren);
    emit_close(out, Delim::Bracket);
    assert(toks_view(out@) =~= before + inline_always());
}

} // verus!
