//! Element descriptions: `tag_path(key = expr, data::key2 = expr2, ...)`.
//!
//! A description names the target element kind by a path, which may start
//! with `::` and end with generic arguments, and lists attribute
//! assignments in order. A key is a path; a
//! value is any expression, kept as its source text: the tokens up to the
//! next `,` or `)` outside brackets. The attribute list is optional, and
//! when present it holds at least one assignment, separated by commas.

use vstd::prelude::*;
use crate::lexer::{chars_of, lex, tokenize, tokens_view, Token, TokenKind, TokenView};
use crate::markup::push_str;

verus! {

/// One `key = value` assignment.
#[derive(Debug, Clone, PartialEq)]
pub struct Assignment {
    /// The key's path segments: one for an attribute, two for `data::name`.
    pub key: Vec<String>,
    /// The source text of the value expression.
    pub value: String,
}

/// A parsed element description.
#[derive(Debug, Clone, PartialEq)]
pub struct ElementDescription {
    /// The segments of the target element kind's path; a path written with
    /// a leading `::` has an empty first segment.
    pub tag: Vec<String>,
    /// The assignments, in source order.
    pub attributes: Vec<Assignment>,
}

/// Why a description could not be parsed, and where.
#[derive(Debug, Clone, Copy, PartialEq, Eq, Structural)]
pub enum ParseError {
    /// A string or character literal left open, at this character position.
    UnexpectedCharacter(usize),
    /// A token that does not fit the grammar, at this token position (the
    /// number of tokens when the text ends too early).
    UnexpectedToken(usize),
}

pub struct AssignmentView {
    pub key: Seq<Seq<char>>,
    pub value: Seq<char>,
}

pub struct DescriptionView {
    pub tag: Seq<Seq<char>>,
    pub attributes: Seq<AssignmentView>,
}

impl View for Assignment {
    type V = AssignmentView;

    open spec fn view(&self) -> AssignmentView {
        AssignmentView { key: self.key.deep_view(), value: self.value@ }
    }
}

/// The views of a list of assignments.
pub open spec fn assignments_view(s: Seq<Assignment>) -> Seq<AssignmentView> {
    s.map_values(|a: Assignment| a@)
}

impl View for ElementDescription {
    type V = DescriptionView;

    open spec fn view(&self) -> DescriptionView {
        DescriptionView { tag: self.tag.deep_view(), attributes: assignments_view(self.attributes@) }
    }
}

/// The rest of a path after its first segment: `:: ident` pairs, appended
/// to `acc`; the tokens after the path are returned with it. An error gives
/// the number of tokens left from the offending one.
pub open spec fn parse_path_tail(ts: Seq<TokenView>, acc: Seq<Seq<char>>) -> Result<(Seq<Seq<char>>, Seq<TokenView>), nat>
    decreases ts.len(),
{
    if ts.len() >= 1 && ts[0].kind == TokenKind::PathSep {
        if ts.len() >= 2 && ts[1].kind == TokenKind::Ident {
            parse_path_tail(ts.skip(2), acc.push(ts[1].text))
        } else {
            Err((ts.len() - 1) as nat)
        }
    } else {
        Ok((acc, ts))
    }
}

/// A path at the start of `ts`: identifiers separated by `::`, with an
/// optional leading `::` kept as an empty first segment.
pub open spec fn parse_path(ts: Seq<TokenView>) -> Result<(Seq<Seq<char>>, Seq<TokenView>), nat> {
    if ts.len() >= 1 && ts[0].kind == TokenKind::Ident {
        parse_path_tail(ts.skip(1), seq![ts[0].text])
    } else if ts.len() >= 2 && ts[0].kind == TokenKind::PathSep && ts[1].kind == TokenKind::Ident {
        parse_path_tail(ts.skip(2), seq![Seq::empty(), ts[1].text])
    } else if ts.len() >= 1 && ts[0].kind == TokenKind::PathSep {
        Err((ts.len() - 1) as nat)
    } else {
        Err(ts.len())
    }
}

pub open spec fn is_open(k: TokenKind) -> bool {
    k == TokenKind::OpenParen || k == TokenKind::OpenBracket
}

pub open spec fn is_close(k: TokenKind) -> bool {
    k == TokenKind::CloseParen || k == TokenKind::CloseBracket
}

/// The number of tokens of the expression at the start of `ts`, inside
/// `depth` open brackets: it ends before a `,` or `)` outside brackets, or
/// at the end of the tokens. A closing bracket with none open, or the end
/// inside brackets, is an error.
pub open spec fn expr_len(ts: Seq<TokenView>, depth: nat) -> Result<nat, nat>
    decreases ts.len(),
{
    if ts.len() == 0 {
        if depth == 0 {
            Ok(0)
        } else {
            Err(0)
        }
    } else if depth == 0 && (ts[0].kind == TokenKind::Comma || ts[0].kind == TokenKind::CloseParen) {
        Ok(0)
    } else {
        let next = if is_open(ts[0].kind) {
            Some((depth + 1) as nat)
        } else if is_close(ts[0].kind) {
            if depth == 0 {
                None
            } else {
                Some((depth - 1) as nat)
            }
        } else {
            Some(depth)
        };
        match next {
            Some(d) => match expr_len(ts.drop_first(), d) {
                Ok(n) => Ok(n + 1),
                Err(e) => Err(e),
            },
            None => Err(ts.len()),
        }
    }
}

/// The source text of tokens, each with the white space before it.
pub open spec fn joined(ts: Seq<TokenView>) -> Seq<char>
    decreases ts.len(),
{
    if ts.len() == 0 {
        Seq::empty()
    } else {
        joined(ts.drop_last()) + (ts.last().lead + ts.last().text)
    }
}

/// The source text of a run of tokens, from the start of the first to the
/// end of the last.
pub open spec fn expr_text(ts: Seq<TokenView>) -> Seq<char> {
    if ts.len() == 0 {
        Seq::empty()
    } else {
        ts[0].text + joined(ts.drop_first())
    }
}

/// A value at the start of `ts`: a non-empty expression, as source text.
pub open spec fn parse_value(ts: Seq<TokenView>) -> Result<(Seq<char>, Seq<TokenView>), nat> {
    match expr_len(ts, 0) {
        Ok(n) => if 0 < n <= ts.len() {
            Ok((expr_text(ts.take(n as int)), ts.skip(n as int)))
        } else {
            Err(ts.len())
        },
        Err(e) => Err(e),
    }
}

/// An assignment `key = value` at the start of `ts`.
pub open spec fn parse_assignment(ts: Seq<TokenView>) -> Result<(AssignmentView, Seq<TokenView>), nat> {
    match parse_path(ts) {
        Ok((key, r1)) => if r1.len() >= 1 && r1[0].kind == TokenKind::Equals {
            match parse_value(r1.skip(1)) {
                Ok((value, r2)) => Ok((AssignmentView { key, value }, r2)),
                Err(e) => Err(e),
            }
        } else {
            Err(r1.len())
        },
        Err(e) => Err(e),
    }
}

/// Assignments separated by commas at the start of `ts`, appended to `acc`.
pub open spec fn parse_assignments(ts: Seq<TokenView>, acc: Seq<AssignmentView>) -> Result<(Seq<AssignmentView>, Seq<TokenView>), nat>
    decreases ts.len(),
{
    match parse_assignment(ts) {
        Ok((a, rest)) => if rest.len() < ts.len() {
            if rest.len() >= 1 && rest[0].kind == TokenKind::Comma {
                parse_assignments(rest.skip(1), acc.push(a))
            } else {
                Ok((acc.push(a), rest))
            }
        } else {
            Err(ts.len())
        },
        Err(e) => Err(e),
    }
}

pub open spec fn is_angle(t: TokenView, c: char) -> bool {
    t.kind == TokenKind::Punct && t.text == seq![c]
}

/// The number of tokens of a generic argument list after its `<`, up to
/// and including the matching `>`, inside `depth` further `<`.
pub open spec fn angle_len(ts: Seq<TokenView>, depth: nat) -> Option<nat>
    decreases ts.len(),
{
    if ts.len() == 0 {
        None
    } else if is_angle(ts[0], '>') && depth == 0 {
        Some(1)
    } else {
        let d = if is_angle(ts[0], '<') {
            (depth + 1) as nat
        } else if is_angle(ts[0], '>') {
            (depth - 1) as nat
        } else {
            depth
        };
        match angle_len(ts.drop_first(), d) {
            Some(n) => Some(n + 1),
            None => None,
        }
    }
}

/// The tag path with the generic arguments that may follow it, kept as
/// source text at the end of its last segment.
pub open spec fn parse_tag(ts: Seq<TokenView>) -> Result<(Seq<Seq<char>>, Seq<TokenView>), nat> {
    match parse_path(ts) {
        Ok((tag, rest)) => if rest.len() >= 1 && is_angle(rest[0], '<') {
            match angle_len(rest.skip(1), 0) {
                Some(n) => if n + 1 <= rest.len() {
                    Ok((tag.update(tag.len() - 1, tag.last() + expr_text(rest.take(n + 1 as int))), rest.skip(n + 1 as int)))
                } else {
                    Err(rest.len())
                },
                None => Err(rest.len()),
            }
        } else {
            Ok((tag, rest))
        },
        Err(e) => Err(e),
    }
}

/// A whole description made of the tokens `ts`; an error gives the number
/// of tokens left from the offending one.
pub open spec fn parse_tokens(ts: Seq<TokenView>) -> Result<DescriptionView, nat> {
    match parse_tag(ts) {
        Ok((tag, rest)) => if rest.len() == 0 {
            Ok(DescriptionView { tag, attributes: Seq::empty() })
        } else if rest[0].kind == TokenKind::OpenParen {
            match parse_assignments(rest.skip(1), Seq::empty()) {
                Ok((attributes, r2)) => if r2.len() == 1 && r2[0].kind == TokenKind::CloseParen {
                    Ok(DescriptionView { tag, attributes })
                } else if r2.len() >= 1 && r2[0].kind == TokenKind::CloseParen {
                    Err((r2.len() - 1) as nat)
                } else {
                    Err(r2.len())
                },
                Err(e) => Err(e),
            }
        } else {
            Err(rest.len())
        },
        Err(e) => Err(e),
    }
}

/// The description that the text `s` spells, or the error and its position.
pub open spec fn parse_description(s: Seq<char>) -> Result<DescriptionView, ParseError> {
    match lex(s) {
        Ok(ts) => match parse_tokens(ts) {
            Ok(d) => Ok(d),
            Err(n) => Err(ParseError::UnexpectedToken((ts.len() - n) as usize)),
        },
        Err(n) => Err(ParseError::UnexpectedCharacter((s.len() - n) as usize)),
    }
}

fn kind_at(ts: &Vec<Token>, k: usize, kind: TokenKind) -> (r: bool)
    ensures
        r == (k < ts@.len() && tokens_view(ts@)[k as int].kind == kind),
        ts@.len() <= usize::MAX,
{
    let n = ts.len();
    k < n && ts[k].kind == kind
}

fn parse_path_exec(ts: &Vec<Token>, k: usize) -> (r: Result<(Vec<String>, usize), usize>)
    requires
        k <= ts@.len(),
    ensures
        match parse_path(tokens_view(ts@).skip(k as int)) {
            Ok((p, rest)) => r is Ok && r->Ok_0.0.deep_view() == p && k < r->Ok_0.1 <= ts@.len()
                && tokens_view(ts@).skip(r->Ok_0.1 as int) == rest,
            Err(n) => r == Err::<(Vec<String>, usize), usize>((ts@.len() - n) as usize),
        },
        r is Ok ==> r->Ok_0.0@.len() > 0,
{
    let ghost tv = tokens_view(ts@);
    let mut acc: Vec<String> = Vec::new();
    let mut j: usize;
    if kind_at(ts, k, TokenKind::Ident) {
        acc.push(ts[k].text.clone());
        assert(acc.deep_view() =~= seq![tv[k as int].text]);
        assert(tv.skip(k as int).skip(1) =~= tv.skip(k + 1));
        j = k + 1;
    } else if kind_at(ts, k, TokenKind::PathSep) && kind_at(ts, k + 1, TokenKind::Ident) {
        acc.push(String::new());
        acc.push(ts[k + 1].text.clone());
        assert(acc.deep_view() =~= seq![Seq::<char>::empty(), tv[k + 1].text]);
        assert(tv.skip(k as int).skip(2) =~= tv.skip(k + 2));
        j = k + 2;
    } else if kind_at(ts, k, TokenKind::PathSep) {
        return Err(k + 1);
    } else {
        return Err(k);
    }
    while kind_at(ts, j, TokenKind::PathSep)
        invariant
            k < j <= ts@.len(),
            tv == tokens_view(ts@),
            acc@.len() > 0,
            parse_path(tv.skip(k as int)) == parse_path_tail(tv.skip(j as int), acc.deep_view()),
        decreases ts@.len() - j,
    {
        if !kind_at(ts, j + 1, TokenKind::Ident) {
            return Err(j + 1);
        }
        let ghost before = acc.deep_view();
        acc.push(ts[j + 1].text.clone());
        assert(acc.deep_view() =~= before.push(tv[j + 1].text));
        assert(tv.skip(j as int).skip(2) =~= tv.skip(j + 2));
        j = j + 2;
    }
    Ok((acc, j))
}

proof fn lemma_expr_text_push(x: Seq<TokenView>, t: TokenView)
    requires
        x.len() > 0,
    ensures
        expr_text(x.push(t)) == expr_text(x) + (t.lead + t.text),
{
    let y = x.drop_first();
    assert(x.push(t).drop_first() =~= y.push(t));
    assert(y.push(t).drop_last() =~= y);
    assert(expr_text(x.push(t)) =~= expr_text(x) + (t.lead + t.text));
}

/// The source text of the tokens between two positions.
fn tokens_text(ts: &Vec<Token>, from: usize, to: usize) -> (r: String)
    requires
        from < to <= ts@.len(),
    ensures
        r@ == expr_text(tokens_view(ts@).subrange(from as int, to as int)),
{
    let ghost tv = tokens_view(ts@);
    let mut out = ts[from].text.clone();
    let mut i = from + 1;
    assert(tv.subrange(from as int, i as int).drop_first() =~= Seq::<TokenView>::empty());
    assert(out@ =~= expr_text(tv.subrange(from as int, i as int)));
    while i < to
        invariant
            from < i <= to,
            to <= ts@.len(),
            tv == tokens_view(ts@),
            out@ == expr_text(tv.subrange(from as int, i as int)),
        decreases to - i,
    {
        push_str(&mut out, ts[i].lead.as_str());
        push_str(&mut out, ts[i].text.as_str());
        proof {
            lemma_expr_text_push(tv.subrange(from as int, i as int), tv[i as int]);
            assert(tv.subrange(from as int, i + 1) =~= tv.subrange(from as int, i as int).push(tv[i as int]));
        }
        assert(out@ =~= expr_text(tv.subrange(from as int, i + 1)));
        i = i + 1;
    }
    out
}

fn parse_value_exec(ts: &Vec<Token>, k: usize) -> (r: Result<(String, usize), usize>)
    requires
        k <= ts@.len(),
    ensures
        match parse_value(tokens_view(ts@).skip(k as int)) {
            Ok((v, rest)) => r is Ok && r->Ok_0.0@ == v && k < r->Ok_0.1 <= ts@.len()
                && tokens_view(ts@).skip(r->Ok_0.1 as int) == rest,
            Err(n) => r == Err::<(String, usize), usize>((ts@.len() - n) as usize),
        },
{
    let ghost tv = tokens_view(ts@);
    let len = ts.len();
    let mut depth: usize = 0;
    let mut j = k;
    while j < len && !(depth == 0 && (ts[j].kind == TokenKind::Comma || ts[j].kind == TokenKind::CloseParen))
        invariant
            k <= j <= len,
            len == ts@.len(),
            tv == tokens_view(ts@),
            depth <= j - k,
            expr_len(tv.skip(k as int), 0) == match expr_len(tv.skip(j as int), depth as nat) {
                Ok(n) => Ok((n + (j - k)) as nat),
                Err(e) => Err::<nat, nat>(e),
            },
        decreases len - j,
    {
        let kind = ts[j].kind;
        assert(tv.skip(j as int)[0] == tv[j as int]);
        assert(tv.skip(j as int).drop_first() =~= tv.skip(j + 1));
        if kind == TokenKind::OpenParen || kind == TokenKind::OpenBracket {
            depth = depth + 1;
        } else if kind == TokenKind::CloseParen || kind == TokenKind::CloseBracket {
            if depth == 0 {
                return Err(j);
            }
            depth = depth - 1;
        }
        j = j + 1;
    }
    if j == len {
        assert(tv.skip(j as int) =~= Seq::<TokenView>::empty());
    } else {
        assert(tv.skip(j as int)[0] == tv[j as int]);
    }
    if depth > 0 {
        return Err(len);
    }
    if j == k {
        return Err(k);
    }
    let text = tokens_text(ts, k, j);
    assert(tv.skip(k as int).take((j - k) as int) =~= tv.subrange(k as int, j as int));
    assert(tv.skip(k as int).skip((j - k) as int) =~= tv.skip(j as int));
    Ok((text, j))
}

fn parse_assignment_exec(ts: &Vec<Token>, k: usize) -> (r: Result<(Assignment, usize), usize>)
    requires
        k <= ts@.len(),
    ensures
        match parse_assignment(tokens_view(ts@).skip(k as int)) {
            Ok((a, rest)) => r is Ok && r->Ok_0.0@ == a && k < r->Ok_0.1 <= ts@.len()
                && tokens_view(ts@).skip(r->Ok_0.1 as int) == rest,
            Err(n) => r == Err::<(Assignment, usize), usize>((ts@.len() - n) as usize),
        },
{
    let ghost tv = tokens_view(ts@);
    match parse_path_exec(ts, k) {
        Ok((key, j)) => {
            if !kind_at(ts, j, TokenKind::Equals) {
                return Err(j);
            }
            assert(tv.skip(j as int).skip(1) =~= tv.skip(j + 1));
            match parse_value_exec(ts, j + 1) {
                Ok((value, m)) => Ok((Assignment { key, value }, m)),
                Err(e) => Err(e),
            }
        },
        Err(e) => Err(e),
    }
}

fn parse_assignments_exec(ts: &Vec<Token>, k: usize) -> (r: Result<(Vec<Assignment>, usize), usize>)
    requires
        k <= ts@.len(),
    ensures
        match parse_assignments(tokens_view(ts@).skip(k as int), Seq::empty()) {
            Ok((a, rest)) => r is Ok && assignments_view(r->Ok_0.0@) == a && k < r->Ok_0.1 <= ts@.len()
                && tokens_view(ts@).skip(r->Ok_0.1 as int) == rest,
            Err(n) => r == Err::<(Vec<Assignment>, usize), usize>((ts@.len() - n) as usize),
        },
{
    let ghost tv = tokens_view(ts@);
    let mut acc: Vec<Assignment> = Vec::new();
    let mut j = k;
    assert(assignments_view(acc@) =~= Seq::<AssignmentView>::empty());
    loop
        invariant
            k <= j <= ts@.len(),
            tv == tokens_view(ts@),
            j == k || acc@.len() > 0,
            parse_assignments(tv.skip(k as int), Seq::empty()) == parse_assignments(tv.skip(j as int), assignments_view(acc@)),
        decreases ts@.len() - j,
    {
        match parse_assignment_exec(ts, j) {
            Ok((a, m)) => {
                let ghost before = assignments_view(acc@);
                acc.push(a);
                assert(assignments_view(acc@) =~= before.push(a@));
                if kind_at(ts, m, TokenKind::Comma) {
                    assert(tv.skip(m as int).skip(1) =~= tv.skip(m + 1));
                    j = m + 1;
                } else {
                    return Ok((acc, m));
                }
            },
            Err(e) => {
                return Err(e);
            },
        }
    }
}

fn angle_at(ts: &Vec<Token>, k: usize, c: char) -> (r: bool)
    requires
        k < ts@.len(),
    ensures
        r == is_angle(tokens_view(ts@)[k as int], c),
{
    let mut s = String::new();
    crate::markup::push_char(&mut s, c);
    assert(s@ =~= seq![c]);
    ts[k].kind == TokenKind::Punct && ts[k].text == s
}

fn parse_tag_exec(ts: &Vec<Token>) -> (r: Result<(Vec<String>, usize), usize>)
    ensures
        match parse_tag(tokens_view(ts@)) {
            Ok((p, rest)) => r is Ok && r->Ok_0.0.deep_view() == p && 0 < r->Ok_0.1 <= ts@.len()
                && tokens_view(ts@).skip(r->Ok_0.1 as int) == rest,
            Err(n) => r == Err::<(Vec<String>, usize), usize>((ts@.len() - n) as usize),
        },
{
    let ghost tv = tokens_view(ts@);
    let len = ts.len();
    assert(tv.skip(0) =~= tv);
    let (mut tag, j) = match parse_path_exec(ts, 0) {
        Ok(found) => found,
        Err(e) => {
            return Err(e);
        },
    };
    if j == len || !angle_at(ts, j, '<') {
        if j < len {
            assert(tv.skip(j as int)[0] == tv[j as int]);
        }
        return Ok((tag, j));
    }
    assert(tv.skip(j as int)[0] == tv[j as int]);
    assert(tv.skip(j as int).skip(1) =~= tv.skip(j + 1));
    let mut depth: usize = 0;
    let mut m = j + 1;
    while m < len && !(depth == 0 && angle_at(ts, m, '>'))
        invariant
            j < m <= len,
            len == ts@.len(),
            tv == tokens_view(ts@),
            depth <= m - j,
            angle_len(tv.skip(j + 1), 0) == match angle_len(tv.skip(m as int), depth as nat) {
                Some(n) => Some((n + (m - j - 1)) as nat),
                None => None::<nat>,
            },
        decreases len - m,
    {
        assert(tv.skip(m as int)[0] == tv[m as int]);
        assert(tv.skip(m as int).drop_first() =~= tv.skip(m + 1));
        if angle_at(ts, m, '<') {
            depth = depth + 1;
        } else if angle_at(ts, m, '>') {
            depth = depth - 1;
        }
        m = m + 1;
    }
    if m == len {
        assert(tv.skip(m as int) =~= Seq::<TokenView>::empty());
        return Err(j);
    }
    assert(tv.skip(m as int)[0] == tv[m as int]);
    let args = tokens_text(ts, j, m + 1);
    let last = tag.len() - 1;
    let ghost pv = tag.deep_view();
    assert(pv.len() > 0);
    let mut seg = tag[last].clone();
    push_str(&mut seg, args.as_str());
    tag.set(last, seg);
    assert(tv.skip(j as int).take((m + 1 - j) as int) =~= tv.subrange(j as int, m + 1));
    assert(tv.skip(j as int).skip((m + 1 - j) as int) =~= tv.skip(m + 1));
    assert(tag.deep_view() =~= pv.update(last as int, pv.last() + expr_text(tv.subrange(j as int, m + 1))));
    Ok((tag, m + 1))
}

fn parse_tokens_exec(ts: &Vec<Token>) -> (r: Result<ElementDescription, usize>)
    ensures
        match parse_tokens(tokens_view(ts@)) {
            Ok(d) => r is Ok && r->Ok_0@ == d,
            Err(n) => r == Err::<ElementDescription, usize>((ts@.len() - n) as usize),
        },
{
    let ghost tv = tokens_view(ts@);
    match parse_tag_exec(ts) {
        Ok((tag, j)) => {
            if j == ts.len() {
                let attributes: Vec<Assignment> = Vec::new();
                let d = ElementDescription { tag, attributes };
                assert(assignments_view(d.attributes@) =~= Seq::<AssignmentView>::empty());
                Ok(d)
            } else if kind_at(ts, j, TokenKind::OpenParen) {
                assert(tv.skip(j as int).skip(1) =~= tv.skip(j + 1));
                match parse_assignments_exec(ts, j + 1) {
                    Ok((attributes, m)) => {
                        if kind_at(ts, m, TokenKind::CloseParen) {
                            if m + 1 == ts.len() {
                                Ok(ElementDescription { tag, attributes })
                            } else {
                                Err(m + 1)
                            }
                        } else {
                            Err(m)
                        }
                    },
                    Err(e) => Err(e),
                }
            } else {
                Err(j)
            }
        },
        Err(e) => Err(e),
    }
}

impl ElementDescription {
    /// Parses a description such as `text_content::Division(class = "hello",
    /// data::subject = "stranger")`. White space between tokens is ignored
    /// outside values and kept inside them.
    pub fn parse(s: &str) -> (r: Result<ElementDescription, ParseError>)
        ensures
            match parse_description(s@) {
                Ok(d) => r is Ok && r->Ok_0@ == d,
                Err(e) => r == Err::<ElementDescription, ParseError>(e),
            },
    {
        let chars = chars_of(s);
        match tokenize(&chars) {
            Ok(ts) => match parse_tokens_exec(&ts) {
                Ok(d) => Ok(d),
                Err(i) => Err(ParseError::UnexpectedToken(i)),
            },
            Err(i) => Err(ParseError::UnexpectedCharacter(i)),
        }
    }
}

} // verus!
