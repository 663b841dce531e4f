//! Rendering primitives shared by every element kind: escaping, number
//! formatting, and the markup of one typed attribute field.

use vstd::prelude::*;
use vstd::string::{StrSliceExecFns, StringExecFns};

verus! {

/// Relies on std's `String::push`: the character is appended at the end.
#[verifier::external_body]
pub(crate) fn push_char(s: &mut String, c: char)
    ensures
        final(s)@ == old(s)@.push(c),
{
    s.push(c)
}

/// Appends a text at the end.
pub(crate) fn push_str(s: &mut String, t: &str)
    ensures
        final(s)@ == old(s)@ + t@,
{
    s.append(t)
}

/// What one character turns into inside a quoted attribute value or a
/// text node.
pub open spec fn escape_char(c: char) -> Seq<char> {
    if c == '&' {
        "&amp;"@
    } else if c == '<' {
        "&lt;"@
    } else if c == '>' {
        "&gt;"@
    } else if c == '"' {
        "&quot;"@
    } else {
        seq![c]
    }
}

/// A text with `&`, `<`, `>` and `"` replaced by their character references.
pub open spec fn escape(s: Seq<char>) -> Seq<char>
    decreases s.len(),
{
    if s.len() == 0 {
        Seq::empty()
    } else {
        escape(s.drop_last()) + escape_char(s.last())
    }
}

/// Appends the escaped form of one character.
pub fn write_escaped_char(out: &mut String, c: char)
    ensures
        final(out)@ == old(out)@ + escape_char(c),
{
    if c == '&' {
        push_str(out, "&amp;");
    } else if c == '<' {
        push_str(out, "&lt;");
    } else if c == '>' {
        push_str(out, "&gt;");
    } else if c == '"' {
        push_str(out, "&quot;");
    } else {
        push_char(out, c);
        assert(out@ =~= old(out)@ + seq![c]);
    }
}

/// Appends the escaped form of a text.
pub fn write_escaped(out: &mut String, s: &str)
    ensures
        final(out)@ == old(out)@ + escape(s@),
{
    let n = s.unicode_len();
    let mut i: usize = 0;
    assert(s@.take(0) =~= Seq::<char>::empty());
    assert(out@ =~= old(out)@ + escape(s@.take(0)));
    while i < n
        invariant
            i <= n,
            n == s@.len(),
            out@ == old(out)@ + escape(s@.take(i as int)),
        decreases n - i,
    {
        let c = s.get_char(i);
        let ghost before = out@;
        write_escaped_char(out, c);
        assert(s@.take(i + 1).drop_last() =~= s@.take(i as int));
        assert(out@ =~= old(out)@ + escape(s@.take(i + 1)));
        i = i + 1;
    }
    assert(s@.take(n as int) =~= s@);
}

/// The character of a decimal digit.
pub open spec fn digit_char(d: nat) -> char {
    if d == 0 {
        '0'
    } else if d == 1 {
        '1'
    } else if d == 2 {
        '2'
    } else if d == 3 {
        '3'
    } else if d == 4 {
        '4'
    } else if d == 5 {
        '5'
    } else if d == 6 {
        '6'
    } else if d == 7 {
        '7'
    } else if d == 8 {
        '8'
    } else {
        '9'
    }
}

/// The decimal digits of a natural number, most significant first.
pub open spec fn digits(n: nat) -> Seq<char>
    decreases n,
{
    if n < 10 {
        seq![digit_char(n)]
    } else {
        digits(n / 10) + seq![digit_char(n % 10)]
    }
}

/// The decimal form of an integer, with a leading `-` when it is negative.
pub open spec fn decimal(n: int) -> Seq<char> {
    if n < 0 {
        seq!['-'] + digits((-n) as nat)
    } else {
        digits(n as nat)
    }
}

fn digit(d: u64) -> (c: char)
    requires
        d < 10,
    ensures
        c == digit_char(d as nat),
{
    match d {
        0 => '0',
        1 => '1',
        2 => '2',
        3 => '3',
        4 => '4',
        5 => '5',
        6 => '6',
        7 => '7',
        8 => '8',
        _ => '9',
    }
}

fn write_digits(out: &mut String, n: u64)
    ensures
        final(out)@ == old(out)@ + digits(n as nat),
    decreases n,
{
    if n >= 10 {
        write_digits(out, n / 10);
    }
    let c = digit(n % 10);
    push_char(out, c);
    assert(out@ =~= old(out)@ + digits(n as nat));
}

/// Appends the decimal form of a number.
pub fn write_decimal(out: &mut String, n: i64)
    ensures
        final(out)@ == old(out)@ + decimal(n as int),
{
    if n < 0 {
        push_char(out, '-');
        let m: u64 = if n == i64::MIN {
            9223372036854775808u64
        } else {
            (-n) as u64
        };
        write_digits(out, m);
        assert(out@ =~= old(out)@ + decimal(n as int));
    } else {
        write_digits(out, n as u64);
    }
}


/// The value of one typed attribute slot of an element.
#[derive(Debug, Clone, PartialEq)]
pub enum FieldValue {
    /// A text attribute, present when it holds a value.
    Text(Option<String>),
    /// A numeric attribute, present when it holds a value.
    Number(Option<i64>),
    /// A boolean attribute, present when it is true.
    Flag(bool),
}

/// One declared attribute slot: its markup name and its current value.
#[derive(Debug, Clone, PartialEq)]
pub struct Field {
    pub name: &'static str,
    pub value: FieldValue,
}

/// ` name="value"`, the markup of a present valued attribute.
pub open spec fn valued_markup(name: Seq<char>, value: Seq<char>) -> Seq<char> {
    " "@ + name + "=\""@ + value + "\""@
}

/// The markup of one field: nothing when it is absent or false, the bare
/// name when it is a true flag, and the name with its quoted value otherwise.
pub open spec fn field_markup(f: Field) -> Seq<char> {
    match f.value {
        FieldValue::Text(Some(s)) => valued_markup(f.name@, escape(s@)),
        FieldValue::Number(Some(n)) => valued_markup(f.name@, decimal(n as int)),
        FieldValue::Flag(true) => " "@ + f.name@,
        _ => Seq::empty(),
    }
}

/// The markup of a list of fields, in order.
pub open spec fn fields_markup(fs: Seq<Field>) -> Seq<char>
    decreases fs.len(),
{
    if fs.len() == 0 {
        Seq::empty()
    } else {
        fields_markup(fs.drop_last()) + field_markup(fs.last())
    }
}

/// The (name, value) pair that a present field contributes to an
/// attribute map; a true flag has the value `true`.
pub open spec fn field_pair(f: Field) -> Option<(Seq<char>, Seq<char>)> {
    match f.value {
        FieldValue::Text(Some(s)) => Some((f.name@, s@)),
        FieldValue::Number(Some(n)) => Some((f.name@, decimal(n as int))),
        FieldValue::Flag(true) => Some((f.name@, "true"@)),
        _ => None,
    }
}

/// The pairs of the present fields of a list, in order.
pub open spec fn field_pairs(fs: Seq<Field>) -> Seq<(Seq<char>, Seq<char>)>
    decreases fs.len(),
{
    if fs.len() == 0 {
        Seq::empty()
    } else {
        match field_pair(fs.last()) {
            Some(p) => field_pairs(fs.drop_last()).push(p),
            None => field_pairs(fs.drop_last()),
        }
    }
}

/// The markup of two field lists one after the other is the markup of
/// their concatenation.
pub proof fn lemma_fields_markup_concat(a: Seq<Field>, b: Seq<Field>)
    ensures
        fields_markup(a + b) == fields_markup(a) + fields_markup(b),
    decreases b.len(),
{
    if b.len() == 0 {
        assert(a + b =~= a);
        assert(fields_markup(a) + Seq::<char>::empty() =~= fields_markup(a));
    } else {
        lemma_fields_markup_concat(a, b.drop_last());
        assert((a + b).drop_last() =~= a + b.drop_last());
        assert((a + b).last() == b.last());
        assert(fields_markup(a + b) =~= fields_markup(a) + fields_markup(b));
    }
}

/// The markup of a field list is the markup of the fields before `i`, then
/// that of field `i`, then that of the fields after it.
pub proof fn lemma_fields_markup_split(fs: Seq<Field>, i: int)
    requires
        0 <= i < fs.len(),
    ensures
        fields_markup(fs) == fields_markup(fs.take(i)) + field_markup(fs[i]) + fields_markup(fs.skip(i + 1)),
{
    let head = fs.take(i);
    let tail = fs.skip(i + 1);
    assert(fs =~= head.push(fs[i]) + tail);
    lemma_fields_markup_concat(head.push(fs[i]), tail);
    assert(head.push(fs[i]).drop_last() =~= head);
}

/// Whether a field renders as nothing: an unset text or number, or a
/// false flag.
pub open spec fn is_absent(f: Field) -> bool {
    match f.value {
        FieldValue::Text(v) => v is None,
        FieldValue::Number(v) => v is None,
        FieldValue::Flag(b) => !b,
    }
}

/// An unset optional attribute, or a false boolean one, never shows in the
/// output: the markup is the same as without that field.
pub proof fn lemma_absent_field_not_rendered(fs: Seq<Field>, i: int)
    requires
        0 <= i < fs.len(),
        is_absent(fs[i]),
    ensures
        fields_markup(fs) == fields_markup(fs.remove(i)),
        field_markup(fs[i]) == Seq::<char>::empty(),
{
    lemma_fields_markup_split(fs, i);
    assert(fs.remove(i) =~= fs.take(i) + fs.skip(i + 1));
    lemma_fields_markup_concat(fs.take(i), fs.skip(i + 1));
    assert(fields_markup(fs.take(i)) + Seq::<char>::empty() =~= fields_markup(fs.take(i)));
}

/// A boolean attribute set to true renders as a space and its bare name,
/// with no value, at its place among the fields.
pub proof fn lemma_true_flag_rendered_bare(fs: Seq<Field>, i: int)
    requires
        0 <= i < fs.len(),
        fs[i].value == FieldValue::Flag(true),
    ensures
        fields_markup(fs) == fields_markup(fs.take(i)) + (" "@ + fs[i].name@) + fields_markup(fs.skip(i + 1)),
{
    lemma_fields_markup_split(fs, i);
}

/// A text attribute set to a value renders as ` name="value"`, the value
/// escaped, at its place among the fields.
pub proof fn lemma_set_text_rendered(fs: Seq<Field>, i: int, v: String)
    requires
        0 <= i < fs.len(),
        fs[i].value == FieldValue::Text(Some(v)),
    ensures
        fields_markup(fs) == fields_markup(fs.take(i)) + valued_markup(fs[i].name@, escape(v@)) + fields_markup(
            fs.skip(i + 1),
        ),
{
    lemma_fields_markup_split(fs, i);
}

/// Whether two fields have the same name and the same value, as text.
pub open spec fn same_content(f: Field, g: Field) -> bool {
    &&& f.name@ == g.name@
    &&& match (f.value, g.value) {
        (FieldValue::Text(a), FieldValue::Text(b)) => a.is_some() == b.is_some() && (a.is_some() ==> a.unwrap()@
            == b.unwrap()@),
        (FieldValue::Number(a), FieldValue::Number(b)) => a == b,
        (FieldValue::Flag(a), FieldValue::Flag(b)) => a == b,
        _ => false,
    }
}

/// Rendering depends on the content of the fields alone: two field lists
/// with the same names and values render identically, so rendering the
/// same element twice gives the same output.
pub proof fn lemma_rendering_depends_on_content(fs: Seq<Field>, gs: Seq<Field>)
    requires
        fs.len() == gs.len(),
        forall|i: int| 0 <= i < fs.len() ==> same_content(#[trigger] fs[i], gs[i]),
    ensures
        fields_markup(fs) == fields_markup(gs),
    decreases fs.len(),
{
    if fs.len() > 0 {
        let a = fs.drop_last();
        let b = gs.drop_last();
        assert forall|i: int| 0 <= i < a.len() implies same_content(#[trigger] a[i], b[i]) by {
            assert(a[i] == fs[i] && b[i] == gs[i]);
        }
        lemma_rendering_depends_on_content(a, b);
        assert(same_content(fs[fs.len() - 1], gs[gs.len() - 1]));
    }
}

fn clone_text(v: &Option<String>) -> (r: Option<String>)
    ensures
        r == *v,
{
    match v {
        Some(s) => Some(s.clone()),
        None => None,
    }
}

impl Field {
    /// A text field holding a copy of `value`.
    pub fn text(name: &'static str, value: &Option<String>) -> (r: Field)
        ensures
            r == (Field { name, value: FieldValue::Text(*value) }),
    {
        Field { name, value: FieldValue::Text(clone_text(value)) }
    }

    /// A numeric field.
    pub fn number(name: &'static str, value: Option<i64>) -> (r: Field)
        ensures
            r == (Field { name, value: FieldValue::Number(value) }),
    {
        Field { name, value: FieldValue::Number(value) }
    }

    /// A boolean field.
    pub fn flag(name: &'static str, value: bool) -> (r: Field)
        ensures
            r == (Field { name, value: FieldValue::Flag(value) }),
    {
        Field { name, value: FieldValue::Flag(value) }
    }

    /// Appends the markup of this field.
    pub fn write(&self, out: &mut String)
        ensures
            final(out)@ == old(out)@ + field_markup(*self),
    {
        match &self.value {
            FieldValue::Text(Some(s)) => {
                push_str(out, " ");
                push_str(out, self.name);
                push_str(out, "=\"");
                write_escaped(out, s.as_str());
                push_str(out, "\"");
            },
            FieldValue::Number(Some(n)) => {
                push_str(out, " ");
                push_str(out, self.name);
                push_str(out, "=\"");
                write_decimal(out, *n);
                push_str(out, "\"");
            },
            FieldValue::Flag(true) => {
                push_str(out, " ");
                push_str(out, self.name);
            },
            _ => {
                assert(out@ =~= old(out)@ + field_markup(*self));
            },
        }
        assert(out@ =~= old(out)@ + field_markup(*self));
    }

    /// The (name, value) pair of this field when it is present.
    pub fn pair(&self) -> (r: Option<(String, String)>)
        ensures
            r.is_some() == field_pair(*self).is_some(),
            r.is_some() ==> r.unwrap()@ == field_pair(*self).unwrap(),
    {
        match &self.value {
            FieldValue::Text(Some(s)) => Some((self.name.to_owned(), s.clone())),
            FieldValue::Number(Some(n)) => {
                let mut v = String::new();
                write_decimal(&mut v, *n);
                assert(v@ =~= decimal(*n as int));
                Some((self.name.to_owned(), v))
            },
            FieldValue::Flag(true) => Some((self.name.to_owned(), "true".to_owned())),
            _ => None,
        }
    }
}

/// Appends the markup of each field, in order.
pub fn write_fields(out: &mut String, fields: &Vec<Field>)
    ensures
        final(out)@ == old(out)@ + fields_markup(fields@),
{
    let mut i: usize = 0;
    assert(fields@.take(0) =~= Seq::<Field>::empty());
    assert(out@ =~= old(out)@ + fields_markup(fields@.take(0)));
    while i < fields.len()
        invariant
            i <= fields@.len(),
            out@ == old(out)@ + fields_markup(fields@.take(i as int)),
        decreases fields@.len() - i,
    {
        fields[i].write(out);
        assert(fields@.take(i + 1).drop_last() =~= fields@.take(i as int));
        assert(out@ =~= old(out)@ + fields_markup(fields@.take(i + 1)));
        i = i + 1;
    }
    assert(fields@.take(i as int) =~= fields@);
}

/// Appends the pairs of the present fields to `out`, in order.
pub fn push_field_pairs(out: &mut Vec<(String, String)>, fields: &Vec<Field>)
    ensures
        final(out).deep_view() == old(out).deep_view() + field_pairs(fields@),
{
    let mut i: usize = 0;
    assert(fields@.take(0) =~= Seq::<Field>::empty());
    assert(out.deep_view() =~= old(out).deep_view() + field_pairs(fields@.take(0)));
    while i < fields.len()
        invariant
            i <= fields@.len(),
            out.deep_view() == old(out).deep_view() + field_pairs(fields@.take(i as int)),
        decreases fields@.len() - i,
    {
        let p = fields[i].pair();
        assert(fields@.take(i + 1).drop_last() =~= fields@.take(i as int));
        match p {
            Some(p) => {
                let ghost before = out.deep_view();
                out.push(p);
                assert(out.deep_view() =~= before.push(p.deep_view()));
            },
            None => {},
        }
        assert(out.deep_view() =~= old(out).deep_view() + field_pairs(fields@.take(i + 1)));
        i = i + 1;
    }
    assert(fields@.take(i as int) =~= fields@);
}

} // verus!
