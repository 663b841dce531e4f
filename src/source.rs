//! The source text of an element description, and the proof that parsing
//! the tokens of a description gives it back.

use vstd::prelude::*;
use crate::description::{
    expr_len, expr_text, is_close, is_open, parse_assignment, parse_assignments, parse_path, parse_path_tail,
    parse_tokens, parse_value, AssignmentView, DescriptionView, ElementDescription,
};
use crate::lexer::{TokenKind, TokenView};
use crate::markup::push_str;

verus! {

pub open spec fn tok(kind: TokenKind, text: Seq<char>) -> TokenView {
    TokenView { kind, text, lead: seq![' '] }
}

pub open spec fn sep_token() -> TokenView {
    tok(TokenKind::PathSep, seq![':', ':'])
}

/// The tokens of the `:: segment` pairs after a path's first segment.
pub open spec fn path_tail_tokens(q: Seq<Seq<char>>) -> Seq<TokenView>
    decreases q.len(),
{
    if q.len() == 0 {
        Seq::empty()
    } else {
        seq![sep_token(), tok(TokenKind::Ident, q[0])] + path_tail_tokens(q.drop_first())
    }
}

/// The tokens of a path; an empty first segment stands for a leading `::`.
pub open spec fn path_tokens(p: Seq<Seq<char>>) -> Seq<TokenView> {
    if p.len() == 0 {
        Seq::empty()
    } else if p[0].len() == 0 && p.len() >= 2 {
        seq![sep_token(), tok(TokenKind::Ident, p[1])] + path_tail_tokens(p.skip(2))
    } else {
        seq![tok(TokenKind::Ident, p[0])] + path_tail_tokens(p.drop_first())
    }
}

/// A path that the grammar can spell: a first segment, or a leading `::`
/// followed by at least one segment.
pub open spec fn valid_path(p: Seq<Seq<char>>) -> bool {
    p.len() > 0 && (p[0].len() > 0 || p.len() >= 2)
}

/// Whether the tokens, inside `depth` open brackets, close all of them and
/// hold no `,` or `)` outside brackets.
pub open spec fn balanced(ts: Seq<TokenView>, depth: nat) -> bool
    decreases ts.len(),
{
    if ts.len() == 0 {
        depth == 0
    } else if depth == 0 && (ts[0].kind == TokenKind::Comma || ts[0].kind == TokenKind::CloseParen) {
        false
    } else if is_open(ts[0].kind) {
        balanced(ts.drop_first(), depth + 1)
    } else if is_close(ts[0].kind) {
        depth > 0 && balanced(ts.drop_first(), (depth - 1) as nat)
    } else {
        balanced(ts.drop_first(), depth)
    }
}

/// The tokens of an expression: a non-empty balanced run.
pub open spec fn is_expression(ts: Seq<TokenView>) -> bool {
    ts.len() > 0 && balanced(ts, 0)
}

/// An assignment written as tokens: its key path and its value's tokens.
pub struct AssignmentTokens {
    pub key: Seq<Seq<char>>,
    pub value: Seq<TokenView>,
}

/// The assignment that an assignment's tokens stand for.
pub open spec fn assignment_of(a: AssignmentTokens) -> AssignmentView {
    AssignmentView { key: a.key, value: expr_text(a.value) }
}

pub open spec fn assignment_tokens(a: AssignmentTokens) -> Seq<TokenView> {
    path_tokens(a.key) + (seq![tok(TokenKind::Equals, seq!['='])] + a.value)
}

/// Assignments separated by commas.
pub open spec fn assignments_tokens(s: Seq<AssignmentTokens>) -> Seq<TokenView>
    decreases s.len(),
{
    if s.len() == 0 {
        Seq::empty()
    } else if s.len() == 1 {
        assignment_tokens(s[0])
    } else {
        assignment_tokens(s[0]) + (seq![tok(TokenKind::Comma, seq![','])] + assignments_tokens(s.drop_first()))
    }
}

/// `tag(key1 = value1, key2 = value2, ...)` as tokens; a bare tag when
/// there is no assignment.
pub open spec fn description_tokens(tag: Seq<Seq<char>>, s: Seq<AssignmentTokens>) -> Seq<TokenView> {
    if s.len() == 0 {
        path_tokens(tag)
    } else {
        path_tokens(tag) + (seq![tok(TokenKind::OpenParen, seq!['('])] + (assignments_tokens(s) + seq![
            tok(TokenKind::CloseParen, seq![')']),
        ]))
    }
}

proof fn lemma_path_tail(q: Seq<Seq<char>>, rest: Seq<TokenView>, acc: Seq<Seq<char>>)
    requires
        rest.len() == 0 || rest[0].kind != TokenKind::PathSep,
    ensures
        parse_path_tail(path_tail_tokens(q) + rest, acc) == Ok::<(Seq<Seq<char>>, Seq<TokenView>), nat>((acc + q, rest)),
    decreases q.len(),
{
    if q.len() == 0 {
        assert(path_tail_tokens(q) + rest =~= rest);
        assert(acc + q =~= acc);
    } else {
        let q2 = q.drop_first();
        lemma_path_tail(q2, rest, acc.push(q[0]));
        let ts = path_tail_tokens(q) + rest;
        assert(ts =~= seq![sep_token(), tok(TokenKind::Ident, q[0])] + (path_tail_tokens(q2) + rest));
        assert(ts.skip(2) =~= path_tail_tokens(q2) + rest);
        assert(acc.push(q[0]) + q2 =~= acc + q);
    }
}

proof fn lemma_path(p: Seq<Seq<char>>, rest: Seq<TokenView>)
    requires
        valid_path(p),
        rest.len() == 0 || rest[0].kind != TokenKind::PathSep,
    ensures
        parse_path(path_tokens(p) + rest) == Ok::<(Seq<Seq<char>>, Seq<TokenView>), nat>((p, rest)),
        path_tokens(p).len() > 0,
{
    let ts = path_tokens(p) + rest;
    if p[0].len() == 0 && p.len() >= 2 {
        let q = p.skip(2);
        lemma_path_tail(q, rest, seq![Seq::empty(), p[1]]);
        assert(ts =~= seq![sep_token(), tok(TokenKind::Ident, p[1])] + (path_tail_tokens(q) + rest));
        assert(ts.skip(2) =~= path_tail_tokens(q) + rest);
        assert(p[0] =~= Seq::<char>::empty());
        assert(seq![Seq::<char>::empty(), p[1]] + q =~= p);
    } else {
        let q = p.drop_first();
        lemma_path_tail(q, rest, seq![p[0]]);
        assert(ts =~= seq![tok(TokenKind::Ident, p[0])] + (path_tail_tokens(q) + rest));
        assert(ts.skip(1) =~= path_tail_tokens(q) + rest);
        assert(seq![p[0]] + q =~= p);
    }
}

proof fn lemma_expr_len(v: Seq<TokenView>, rest: Seq<TokenView>, depth: nat)
    requires
        balanced(v, depth),
        rest.len() > 0,
        rest[0].kind == TokenKind::Comma || rest[0].kind == TokenKind::CloseParen,
    ensures
        expr_len(v + rest, depth) == Ok::<nat, nat>(v.len()),
    decreases v.len(),
{
    if v.len() == 0 {
        assert(v + rest =~= rest);
    } else {
        assert((v + rest)[0] == v[0]);
        assert((v + rest).drop_first() =~= v.drop_first() + rest);
        if is_open(v[0].kind) {
            lemma_expr_len(v.drop_first(), rest, depth + 1);
        } else if is_close(v[0].kind) {
            lemma_expr_len(v.drop_first(), rest, (depth - 1) as nat);
        } else {
            lemma_expr_len(v.drop_first(), rest, depth);
        }
    }
}

proof fn lemma_assignment(a: AssignmentTokens, rest: Seq<TokenView>)
    requires
        valid_path(a.key),
        is_expression(a.value),
        rest.len() > 0,
        rest[0].kind == TokenKind::Comma || rest[0].kind == TokenKind::CloseParen,
    ensures
        parse_assignment(assignment_tokens(a) + rest) == Ok::<(AssignmentView, Seq<TokenView>), nat>((assignment_of(a), rest)),
        assignment_tokens(a).len() > 0,
{
    let eq = seq![tok(TokenKind::Equals, seq!['='])];
    let r1 = eq + (a.value + rest);
    lemma_path(a.key, r1);
    assert(assignment_tokens(a) + rest =~= path_tokens(a.key) + r1);
    assert(r1.skip(1) =~= a.value + rest);
    lemma_expr_len(a.value, rest, 0);
    assert((a.value + rest).take(a.value.len() as int) =~= a.value);
    assert((a.value + rest).skip(a.value.len() as int) =~= rest);
}

proof fn lemma_assignments(s: Seq<AssignmentTokens>, rest: Seq<TokenView>, acc: Seq<AssignmentView>)
    requires
        s.len() > 0,
        forall|i: int| 0 <= i < s.len() ==> valid_path(#[trigger] s[i].key) && is_expression(s[i].value),
        rest.len() > 0,
        rest[0].kind == TokenKind::CloseParen,
    ensures
        parse_assignments(assignments_tokens(s) + rest, acc) == Ok::<(Seq<AssignmentView>, Seq<TokenView>), nat>((
            acc + s.map_values(|a: AssignmentTokens| assignment_of(a)),
            rest,
        )),
    decreases s.len(),
{
    assert(valid_path(s[0].key) && is_expression(s[0].value));
    let m = s.map_values(|a: AssignmentTokens| assignment_of(a));
    if s.len() == 1 {
        lemma_assignment(s[0], rest);
        assert(acc.push(assignment_of(s[0])) =~= acc + m);
    } else {
        let s2 = s.drop_first();
        assert forall|i: int| 0 <= i < s2.len() implies valid_path(#[trigger] s2[i].key) && is_expression(s2[i].value) by {
            assert(s2[i] == s[i + 1]);
        }
        let comma = seq![tok(TokenKind::Comma, seq![','])];
        let r1 = comma + (assignments_tokens(s2) + rest);
        lemma_assignment(s[0], r1);
        lemma_assignments(s2, rest, acc.push(assignment_of(s[0])));
        assert(assignments_tokens(s) + rest =~= assignment_tokens(s[0]) + r1);
        assert(r1.skip(1) =~= assignments_tokens(s2) + rest);
        assert(acc.push(assignment_of(s[0])) + s2.map_values(|a: AssignmentTokens| assignment_of(a)) =~= acc + m);
    }
}

/// Parsing `tag(key1 = value1, key2 = value2, ...)`, for any tag path, any
/// key paths and any value expressions, gives back the tag path and the
/// assignments in the same order, each value as the source text of its
/// expression; a bare tag gives no assignment.
pub proof fn lemma_description_round_trip(tag: Seq<Seq<char>>, s: Seq<AssignmentTokens>)
    requires
        valid_path(tag),
        forall|i: int| 0 <= i < s.len() ==> valid_path(#[trigger] s[i].key) && is_expression(s[i].value),
    ensures
        parse_tokens(description_tokens(tag, s)) == Ok::<DescriptionView, nat>(
            DescriptionView { tag, attributes: s.map_values(|a: AssignmentTokens| assignment_of(a)) },
        ),
{
    let m = s.map_values(|a: AssignmentTokens| assignment_of(a));
    if s.len() == 0 {
        lemma_path(tag, Seq::empty());
        assert(path_tokens(tag) + Seq::<TokenView>::empty() =~= path_tokens(tag));
        assert(m =~= Seq::<AssignmentView>::empty());
    } else {
        let close = seq![tok(TokenKind::CloseParen, seq![')'])];
        let open = seq![tok(TokenKind::OpenParen, seq!['('])];
        let r = open + (assignments_tokens(s) + close);
        lemma_path(tag, r);
        lemma_assignments(s, close, Seq::empty());
        assert(r.skip(1) =~= assignments_tokens(s) + close);
        assert(Seq::<AssignmentView>::empty() + m =~= m);
    }
}

/// A path written with `::` between segments; an empty first segment
/// gives a leading `::`.
pub open spec fn path_source(p: Seq<Seq<char>>) -> Seq<char>
    decreases p.len(),
{
    if p.len() == 0 {
        Seq::empty()
    } else if p.len() == 1 {
        p[0]
    } else {
        path_source(p.drop_last()) + "::"@ + p.last()
    }
}

/// `key = value`.
pub open spec fn assignment_source(a: AssignmentView) -> Seq<char> {
    path_source(a.key) + " = "@ + a.value
}

/// Assignments separated by `, `.
pub open spec fn assignments_source(s: Seq<AssignmentView>) -> Seq<char>
    decreases s.len(),
{
    if s.len() == 0 {
        Seq::empty()
    } else if s.len() == 1 {
        assignment_source(s[0])
    } else {
        assignments_source(s.drop_last()) + ", "@ + assignment_source(s.last())
    }
}

/// The source text of a description: `tag(key = value, ...)`, or the bare
/// tag when it has no assignment.
pub open spec fn description_source(d: DescriptionView) -> Seq<char> {
    if d.attributes.len() == 0 {
        path_source(d.tag)
    } else {
        path_source(d.tag) + "("@ + assignments_source(d.attributes) + ")"@
    }
}

fn write_path_source(out: &mut String, p: &Vec<String>)
    ensures
        final(out)@ == old(out)@ + path_source(p.deep_view()),
{
    let ghost pv = p.deep_view();
    let mut i: usize = 0;
    assert(out@ =~= old(out)@ + path_source(pv.take(0)));
    while i < p.len()
        invariant
            i <= pv.len(),
            pv == p.deep_view(),
            out@ == old(out)@ + path_source(pv.take(i as int)),
        decreases pv.len() - i,
    {
        assert(pv[i as int] == p@[i as int]@);
        if i > 0 {
            push_str(out, "::");
        }
        push_str(out, p[i].as_str());
        assert(pv.take(i + 1).drop_last() =~= pv.take(i as int));
        assert(out@ =~= old(out)@ + path_source(pv.take(i + 1)));
        i = i + 1;
    }
    assert(pv.take(i as int) =~= pv);
}

impl ElementDescription {
    /// The source text of the description, `tag(key = value, ...)`, each
    /// value written as it was given.
    pub fn to_source(&self) -> (r: String)
        ensures
            r@ == description_source(self@),
    {
        let ghost s = self@.attributes;
        let mut out = String::new();
        write_path_source(&mut out, &self.tag);
        if self.attributes.len() == 0 {
            assert(out@ =~= description_source(self@));
            return out;
        }
        push_str(&mut out, "(");
        let ghost head = out@;
        let mut i: usize = 0;
        assert(out@ =~= head + assignments_source(s.take(0)));
        while i < self.attributes.len()
            invariant
                i <= s.len(),
                s == self@.attributes,
                s.len() == self.attributes@.len(),
                out@ == head + assignments_source(s.take(i as int)),
            decreases s.len() - i,
        {
            assert(s[i as int] == self.attributes@[i as int]@);
            if i > 0 {
                push_str(&mut out, ", ");
            }
            write_path_source(&mut out, &self.attributes[i].key);
            push_str(&mut out, " = ");
            push_str(&mut out, self.attributes[i].value.as_str());
            assert(s.take(i + 1).drop_last() =~= s.take(i as int));
            assert(out@ =~= head + assignments_source(s.take(i + 1)));
            i = i + 1;
        }
        assert(s.take(i as int) =~= s);
        push_str(&mut out, ")");
        assert(out@ =~= description_source(self@));
        out
    }
}

} // verus!
