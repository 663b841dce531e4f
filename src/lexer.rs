//! Tokens of the element-description grammar.
//!
//! Every character outside white space starts a token; only a string or
//! character literal left open fails. Each token keeps its source text and
//! the white space before it, so the source of any run of tokens can be
//! given back verbatim.

use vstd::prelude::*;
use vstd::string::StrSliceExecFns;
use crate::markup::push_char;

verus! {

/// The kinds of token of an element description.
#[derive(Debug, Clone, Copy, PartialEq, Eq, Structural)]
pub enum TokenKind {
    /// An identifier: a letter or `_`, then letters, digits and `_`.
    Ident,
    /// A digit, then letters, digits and `_` (`42`, `1u8`, `0x1F`).
    Number,
    /// A string literal, quotes and escapes included.
    Str,
    /// A character literal, quotes included.
    Char,
    /// `::`
    PathSep,
    /// `(`
    OpenParen,
    /// `)`
    CloseParen,
    /// `[` or `{`
    OpenBracket,
    /// `]` or `}`
    CloseBracket,
    /// `,`
    Comma,
    /// `=`
    Equals,
    /// Any other character.
    Punct,
}

/// A token as a value: its kind, its source text, and the white space that
/// stands before it.
pub struct TokenView {
    pub kind: TokenKind,
    pub text: Seq<char>,
    pub lead: Seq<char>,
}

/// A token of an element description.
#[derive(Debug, Clone, PartialEq)]
pub struct Token {
    pub kind: TokenKind,
    pub text: String,
    pub lead: String,
}

impl View for Token {
    type V = TokenView;

    open spec fn view(&self) -> TokenView {
        TokenView { kind: self.kind, text: self.text@, lead: self.lead@ }
    }
}

/// The views of a list of tokens.
pub open spec fn tokens_view(ts: Seq<Token>) -> Seq<TokenView> {
    ts.map_values(|t: Token| t@)
}

pub open spec fn is_space(c: char) -> bool {
    c == ' ' || c == '\t' || c == '\n' || c == '\r'
}

pub open spec fn is_digit(c: char) -> bool {
    '0' <= c && c <= '9'
}

pub open spec fn is_ident_start(c: char) -> bool {
    ('a' <= c && c <= 'z') || ('A' <= c && c <= 'Z') || c == '_'
}

pub open spec fn is_ident_char(c: char) -> bool {
    is_ident_start(c) || is_digit(c)
}

/// The number of leading identifier characters.
pub open spec fn ident_run(s: Seq<char>) -> nat
    decreases s.len(),
{
    if s.len() > 0 && is_ident_char(s[0]) {
        1 + ident_run(s.drop_first())
    } else {
        0
    }
}

/// The length of a string literal's body up to its closing quote, a
/// backslash escaping the character after it; `None` when it is not closed.
pub open spec fn str_body(s: Seq<char>) -> Option<nat>
    decreases s.len(),
{
    if s.len() == 0 {
        None
    } else if s[0] == '"' {
        Some(0)
    } else if s[0] == '\\' {
        if s.len() >= 2 {
            match str_body(s.skip(2)) {
                Some(n) => Some(n + 2),
                None => None,
            }
        } else {
            None
        }
    } else {
        match str_body(s.drop_first()) {
            Some(n) => Some(n + 1),
            None => None,
        }
    }
}

/// The kind and length of the token at the start of `s`, which does not
/// start with white space; `None` for a string literal left open.
pub open spec fn first_token(s: Seq<char>) -> Option<(TokenKind, nat)> {
    let c = s[0];
    if is_ident_start(c) {
        Some((TokenKind::Ident, ident_run(s)))
    } else if is_digit(c) {
        Some((TokenKind::Number, ident_run(s)))
    } else if c == '"' {
        match str_body(s.drop_first()) {
            Some(n) => Some((TokenKind::Str, n + 2)),
            None => None,
        }
    } else if c == '\'' {
        if s.len() >= 3 && s[1] != '\\' && s[1] != '\'' && s[2] == '\'' {
            Some((TokenKind::Char, 3))
        } else if s.len() >= 4 && s[1] == '\\' && s[3] == '\'' {
            Some((TokenKind::Char, 4))
        } else {
            Some((TokenKind::Punct, 1))
        }
    } else if c == ':' && s.len() >= 2 && s[1] == ':' {
        Some((TokenKind::PathSep, 2))
    } else if c == '(' {
        Some((TokenKind::OpenParen, 1))
    } else if c == ')' {
        Some((TokenKind::CloseParen, 1))
    } else if c == '[' || c == '{' {
        Some((TokenKind::OpenBracket, 1))
    } else if c == ']' || c == '}' {
        Some((TokenKind::CloseBracket, 1))
    } else if c == ',' {
        Some((TokenKind::Comma, 1))
    } else if c == '=' {
        Some((TokenKind::Equals, 1))
    } else {
        Some((TokenKind::Punct, 1))
    }
}

/// The tokens of `s`, the first of them preceded by the white space
/// `lead`; `Err(n)` when the literal that starts `n` characters before the
/// end is left open.
pub open spec fn lex_from(s: Seq<char>, lead: Seq<char>) -> Result<Seq<TokenView>, nat>
    decreases s.len(),
{
    if s.len() == 0 {
        Ok(Seq::empty())
    } else if is_space(s[0]) {
        lex_from(s.drop_first(), lead.push(s[0]))
    } else {
        match first_token(s) {
            Some((kind, n)) => if 0 < n <= s.len() {
                match lex_from(s.skip(n as int), Seq::empty()) {
                    Ok(rest) => Ok(seq![TokenView { kind, text: s.take(n as int), lead }] + rest),
                    Err(e) => Err(e),
                }
            } else {
                Err(s.len())
            },
            None => Err(s.len()),
        }
    }
}

/// The tokens of `s`.
pub open spec fn lex(s: Seq<char>) -> Result<Seq<TokenView>, nat> {
    lex_from(s, Seq::empty())
}

fn is_space_char(c: char) -> (r: bool)
    ensures
        r == is_space(c),
{
    c == ' ' || c == '\t' || c == '\n' || c == '\r'
}

fn is_digit_char(c: char) -> (r: bool)
    ensures
        r == is_digit(c),
{
    '0' <= c && c <= '9'
}

fn is_ident_start_char(c: char) -> (r: bool)
    ensures
        r == is_ident_start(c),
{
    ('a' <= c && c <= 'z') || ('A' <= c && c <= 'Z') || c == '_'
}

/// The characters of a text.
pub fn chars_of(s: &str) -> (r: Vec<char>)
    ensures
        r@ == s@,
{
    let n = s.unicode_len();
    let mut r: Vec<char> = Vec::new();
    let mut i: usize = 0;
    while i < n
        invariant
            i <= n,
            n == s@.len(),
            r@ == s@.take(i as int),
        decreases n - i,
    {
        r.push(s.get_char(i));
        assert(r@ =~= s@.take(i + 1));
        i = i + 1;
    }
    assert(s@.take(n as int) =~= s@);
    r
}

/// The text of `s` between two positions.
pub fn substring(s: &Vec<char>, from: usize, to: usize) -> (r: String)
    requires
        from <= to <= s@.len(),
    ensures
        r@ == s@.subrange(from as int, to as int),
{
    let mut r = String::new();
    let mut i = from;
    while i < to
        invariant
            from <= i <= to,
            to <= s@.len(),
            r@ == s@.subrange(from as int, i as int),
        decreases to - i,
    {
        push_char(&mut r, s[i]);
        assert(r@ =~= s@.subrange(from as int, i + 1));
        i = i + 1;
    }
    r
}

fn scan_ident(s: &Vec<char>, start: usize) -> (end: usize)
    requires
        start <= s@.len(),
    ensures
        end == start + ident_run(s@.skip(start as int)),
        end <= s@.len(),
{
    let mut j = start;
    while j < s.len() && (is_ident_start_char(s[j]) || is_digit_char(s[j]))
        invariant
            start <= j <= s@.len(),
            ident_run(s@.skip(start as int)) == (j - start) + ident_run(s@.skip(j as int)),
        decreases s@.len() - j,
    {
        assert(s@.skip(j as int).drop_first() =~= s@.skip(j + 1));
        j = j + 1;
    }
    j
}

/// The position of the closing quote of the string literal whose body
/// starts at `start`.
fn scan_str(s: &Vec<char>, start: usize) -> (r: Option<usize>)
    requires
        start <= s@.len(),
    ensures
        match str_body(s@.skip(start as int)) {
            Some(n) => r == Some((start + n) as usize) && start + n < s@.len(),
            None => r is None,
        },
{
    let len = s.len();
    let mut j = start;
    while j < len
        invariant
            start <= j <= len,
            len == s@.len(),
            str_body(s@.skip(start as int)) == match str_body(s@.skip(j as int)) {
                Some(n) => Some((n + (j - start)) as nat),
                None => None::<nat>,
            },
        decreases len - j,
    {
        let c = s[j];
        if c == '"' {
            return Some(j);
        } else if c == '\\' {
            if j + 1 < len {
                assert(s@.skip(j as int).skip(2) =~= s@.skip(j + 2));
                j = j + 2;
            } else {
                return None;
            }
        } else {
            assert(s@.skip(j as int).drop_first() =~= s@.skip(j + 1));
            j = j + 1;
        }
    }
    None
}

/// The kind and length of the token that starts at position `i`.
fn next_token(s: &Vec<char>, i: usize) -> (r: Option<(TokenKind, usize)>)
    requires
        i < s@.len(),
    ensures
        match first_token(s@.skip(i as int)) {
            Some((k, n)) => r is Some && r->Some_0.0 == k && r->Some_0.1 as nat == n,
            None => r is None,
        },
        r is Some ==> 0 < r->Some_0.1 <= s@.len() - i,
{
    let len = s.len();
    let ghost rest = s@.skip(i as int);
    assert(rest[0] == s@[i as int]);
    let c = s[i];
    if is_ident_start_char(c) || is_digit_char(c) {
        let end = scan_ident(s, i);
        proof {
            assert(rest.drop_first() =~= s@.skip(i + 1));
        }
        if is_ident_start_char(c) {
            Some((TokenKind::Ident, end - i))
        } else {
            Some((TokenKind::Number, end - i))
        }
    } else if c == '"' {
        assert(rest.drop_first() =~= s@.skip(i + 1));
        match scan_str(s, i + 1) {
            Some(end) => Some((TokenKind::Str, end + 1 - i)),
            None => None,
        }
    } else if c == '\'' {
        if len - i >= 3 && s[i + 1] != '\\' && s[i + 1] != '\'' && s[i + 2] == '\'' {
            Some((TokenKind::Char, 3))
        } else if len - i >= 4 && s[i + 1] == '\\' && s[i + 3] == '\'' {
            Some((TokenKind::Char, 4))
        } else {
            Some((TokenKind::Punct, 1))
        }
    } else if c == ':' && i + 1 < len && s[i + 1] == ':' {
        Some((TokenKind::PathSep, 2))
    } else if c == '(' {
        Some((TokenKind::OpenParen, 1))
    } else if c == ')' {
        Some((TokenKind::CloseParen, 1))
    } else if c == '[' || c == '{' {
        Some((TokenKind::OpenBracket, 1))
    } else if c == ']' || c == '}' {
        Some((TokenKind::CloseBracket, 1))
    } else if c == ',' {
        Some((TokenKind::Comma, 1))
    } else if c == '=' {
        Some((TokenKind::Equals, 1))
    } else {
        Some((TokenKind::Punct, 1))
    }
}

/// The tokens of a text, or the position of a literal left open.
pub fn tokenize(s: &Vec<char>) -> (r: Result<Vec<Token>, usize>)
    ensures
        match lex(s@) {
            Ok(ts) => r is Ok && tokens_view(r->Ok_0@) == ts,
            Err(n) => r == Err::<Vec<Token>, usize>((s@.len() - n) as usize),
        },
{
    let len = s.len();
    let mut acc: Vec<Token> = Vec::new();
    let mut lead = String::new();
    let mut i: usize = 0;
    assert(s@.skip(0) =~= s@);
    assert(tokens_view(acc@) =~= Seq::<TokenView>::empty());
    while i < len
        invariant
            i <= len,
            len == s@.len(),
            lex(s@) == match lex_from(s@.skip(i as int), lead@) {
                Ok(rest) => Ok(tokens_view(acc@) + rest),
                Err(n) => Err::<Seq<TokenView>, nat>(n),
            },
        decreases len - i,
    {
        let ghost rest = s@.skip(i as int);
        let ghost old_lead = lead@;
        assert(rest[0] == s@[i as int]);
        if is_space_char(s[i]) {
            assert(rest.drop_first() =~= s@.skip(i + 1));
            push_char(&mut lead, s[i]);
            assert(lex_from(rest, old_lead) == lex_from(s@.skip(i + 1), lead@));
            i = i + 1;
        } else {
            match next_token(s, i) {
                Some((kind, n)) => {
                    assert(rest.skip(n as int) =~= s@.skip(i + n));
                    let text = substring(s, i, i + n);
                    assert(rest.take(n as int) =~= s@.subrange(i as int, i + n));
                    let t = Token { kind, text, lead };
                    let ghost before = tokens_view(acc@);
                    acc.push(t);
                    assert(tokens_view(acc@) =~= before.push(t@));
                    proof {
                        match lex_from(s@.skip(i + n), Seq::empty()) {
                            Ok(r2) => {
                                assert(before + (seq![t@] + r2) =~= before.push(t@) + r2);
                            },
                            Err(_) => {},
                        }
                    }
                    lead = String::new();
                    assert(t@.lead == old_lead);
                    assert(lex_from(rest, old_lead) == match lex_from(s@.skip(i + n), Seq::empty()) {
                        Ok(r2) => Ok(seq![t@] + r2),
                        Err(e) => Err::<Seq<TokenView>, nat>(e),
                    });
                    i = i + n;
                },
                None => {
                    return Err(i);
                },
            }
        }
    }
    assert(s@.skip(i as int) =~= Seq::<char>::empty());
    assert(tokens_view(acc@) + Seq::<TokenView>::empty() =~= tokens_view(acc@));
    Ok(acc)
}

} // verus!
