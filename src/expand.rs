//! Expansion of an element description into an implementation of
//! `ToHtmlElement`: a builder chain against the target element kind.

use vstd::prelude::*;
use crate::description::{parse_description, Assignment, AssignmentView, DescriptionView, ElementDescription, ParseError};
use crate::markup::push_str;

verus! {

/// The name of the annotation that carries an element description.
pub open spec fn annotation_name() -> Seq<char> {
    "html_element"@
}

/// One call of the emitted builder chain.
#[derive(Debug, Clone, PartialEq)]
pub enum BuilderCall {
    /// `.name(value)`: sets the attribute of the builder method `name`;
    /// the value is the source text of an expression.
    Method { name: String, value: String },
    /// `.data("key", value)`: sets a dataset entry.
    Data { key: String, value: String },
}

pub enum CallView {
    Method { name: Seq<char>, value: Seq<char> },
    Data { key: Seq<char>, value: Seq<char> },
}

impl View for BuilderCall {
    type V = CallView;

    open spec fn view(&self) -> CallView {
        match self {
            BuilderCall::Method { name, value } => CallView::Method { name: name@, value: value@ },
            BuilderCall::Data { key, value } => CallView::Data { key: key@, value: value@ },
        }
    }
}

pub open spec fn calls_view(s: Seq<BuilderCall>) -> Seq<CallView> {
    s.map_values(|c: BuilderCall| c@)
}

/// The shape of the type that the conversion is derived for.
#[derive(Debug, Clone, PartialEq)]
pub enum DataShape {
    /// A struct, with the accessors of its fields in declaration order
    /// (names, or positions for a tuple struct).
    Struct(Vec<String>),
    Enum,
    Union,
}

/// The type a conversion is derived for: its name, its shape, and its
/// annotations as (path, arguments) texts.
#[derive(Debug, Clone, PartialEq)]
pub struct DeriveTarget {
    pub ident: String,
    pub shape: DataShape,
    pub attrs: Vec<(String, String)>,
}

/// Why an expansion failed.
#[derive(Debug, Clone, Copy, PartialEq, Eq, Structural)]
pub enum ExpandError {
    /// The description does not parse.
    Parse(ParseError),
    /// A second element-description annotation, at this position among the
    /// target's annotations.
    DuplicateDescription(usize),
    /// A key that is neither one identifier nor `data::name`, at this
    /// position among the assignments.
    UnsupportedKey(usize),
    /// The target is an enum.
    EnumNotSupported,
    /// The target is a union.
    UnionNotSupported,
}

/// The builder call of an assignment: `data::name` sets a dataset entry,
/// a single identifier calls the builder method of that name, and any
/// other key has no call.
pub open spec fn call_of(a: AssignmentView) -> Option<CallView> {
    if a.key.len() == 1 {
        Some(CallView::Method { name: a.key[0], value: a.value })
    } else if a.key.len() == 2 && a.key[0] == "data"@ {
        Some(CallView::Data { key: a.key[1], value: a.value })
    } else {
        None
    }
}

/// Whether every assignment has a builder call.
pub open spec fn all_supported(s: Seq<AssignmentView>) -> bool {
    forall|i: int| 0 <= i < s.len() ==> call_of(#[trigger] s[i]).is_some()
}

/// Maps an assignment to its builder call.
pub fn classify(a: &Assignment) -> (r: Option<BuilderCall>)
    ensures
        match call_of(a@) {
            Some(c) => r.is_some() && r.unwrap()@ == c,
            None => r.is_none(),
        },
{
    let data_marker = "data".to_owned();
    assert(a@.key.len() == a.key@.len());
    if a.key.len() == 1 {
        assert(a@.key[0] == a.key@[0]@);
        Some(BuilderCall::Method { name: a.key[0].clone(), value: a.value.clone() })
    } else if a.key.len() == 2 && a.key[0] == data_marker {
        assert(a@.key[0] == a.key@[0]@ && a@.key[1] == a.key@[1]@);
        Some(BuilderCall::Data { key: a.key[1].clone(), value: a.value.clone() })
    } else {
        None
    }
}


/// The index of the first assignment without a builder call, if any.
pub open spec fn first_unsupported(s: Seq<AssignmentView>) -> int {
    choose|i: int| 0 <= i < s.len() && call_of(s[i]).is_none() && forall|j: int| 0 <= j < i ==> call_of(s[j]).is_some()
}

/// The builder calls of a description's assignments, in source order, or
/// the position of the first key that has none.
pub fn builder_calls(d: &ElementDescription) -> (r: Result<Vec<BuilderCall>, ExpandError>)
    ensures
        r is Ok <==> all_supported(d@.attributes),
        r is Ok ==> calls_view(r->Ok_0@) == d@.attributes.map_values(|a: AssignmentView| call_of(a).unwrap()),
        r is Err ==> r->Err_0 == ExpandError::UnsupportedKey(first_unsupported(d@.attributes) as usize),
{
    let ghost s = d@.attributes;
    let mut calls: Vec<BuilderCall> = Vec::new();
    let mut i: usize = 0;
    while i < d.attributes.len()
        invariant
            i <= s.len(),
            s == d@.attributes,
            s.len() == d.attributes@.len(),
            forall|j: int| 0 <= j < i ==> call_of(#[trigger] s[j]).is_some(),
            calls_view(calls@) == s.take(i as int).map_values(|a: AssignmentView| call_of(a).unwrap()),
        decreases s.len() - i,
    {
        assert(s[i as int] == d.attributes@[i as int]@);
        match classify(&d.attributes[i]) {
            Some(c) => {
                let ghost before = calls_view(calls@);
                calls.push(c);
                assert(calls_view(calls@) =~= before.push(c@));
                assert(calls_view(calls@) =~= s.take(i + 1).map_values(|a: AssignmentView| call_of(a).unwrap()));
            },
            None => {
                let ghost f = first_unsupported(s);
                assert(0 <= f < s.len() && call_of(s[f]).is_none() && forall|j: int| 0 <= j < f ==> call_of(s[j]).is_some()) by {
                    assert(call_of(s[i as int]).is_none());
                }
                assert(f == i as int) by {
                    if f < i {
                    } else if f > i {
                        assert(call_of(s[i as int]).is_some());
                    }
                }
                return Err(ExpandError::UnsupportedKey(i));
            },
        }
        i = i + 1;
    }
    assert(s.take(i as int) =~= s);
    Ok(calls)
}

/// The positions of the element-description annotations among a target's
/// annotations.
pub open spec fn annotation_positions(s: Seq<(Seq<char>, Seq<char>)>) -> Seq<usize>
    decreases s.len(),
{
    if s.len() == 0 {
        Seq::empty()
    } else if s.last().0 == annotation_name() {
        annotation_positions(s.drop_last()).push((s.len() - 1) as usize)
    } else {
        annotation_positions(s.drop_last())
    }
}

/// The element description among a target's annotations: none, the one
/// that the single annotation spells, or an error.
pub open spec fn description_of(s: Seq<(Seq<char>, Seq<char>)>) -> Result<Option<DescriptionView>, ExpandError> {
    let pos = annotation_positions(s);
    if pos.len() == 0 {
        Ok(None)
    } else if pos.len() >= 2 {
        Err(ExpandError::DuplicateDescription(pos[1]))
    } else {
        match parse_description(s[pos[0] as int].1) {
            Ok(d) => Ok(Some(d)),
            Err(e) => Err(ExpandError::Parse(e)),
        }
    }
}

/// Finds the element description among a target's annotations, given as
/// (path, arguments) texts. No annotation gives `None`; a second one is an
/// error naming its position.
pub fn find_element_description(attrs: &Vec<(String, String)>) -> (r: Result<Option<ElementDescription>, ExpandError>)
    ensures
        match description_of(attrs.deep_view()) {
            Ok(Some(d)) => r is Ok && r->Ok_0 is Some && r->Ok_0->Some_0@ == d,
            Ok(None) => r == Ok::<Option<ElementDescription>, ExpandError>(None),
            Err(e) => r == Err::<Option<ElementDescription>, ExpandError>(e),
        },
{
    let ghost s = attrs.deep_view();
    let name = "html_element".to_owned();
    let mut positions: Vec<usize> = Vec::new();
    let mut i: usize = 0;
    assert(s.take(0) =~= Seq::<(Seq<char>, Seq<char>)>::empty());
    while i < attrs.len()
        invariant
            i <= s.len(),
            s == attrs.deep_view(),
            name@ == annotation_name(),
            positions@ == annotation_positions(s.take(i as int)),
        decreases s.len() - i,
    {
        assert(s.take(i + 1).drop_last() =~= s.take(i as int));
        assert(s[i as int] == attrs@[i as int].deep_view());
        if attrs[i].0 == name {
            positions.push(i);
        }
        i = i + 1;
    }
    assert(s.take(i as int) =~= s);
    if positions.len() == 0 {
        Ok(None)
    } else if positions.len() >= 2 {
        Err(ExpandError::DuplicateDescription(positions[1]))
    } else {
        let k = positions[0];
        assert(k < s.len()) by {
            lemma_positions_are_annotations(s);
        }
        assert(s[k as int] == attrs@[k as int].deep_view());
        match ElementDescription::parse(attrs[k].1.as_str()) {
            Ok(d) => Ok(Some(d)),
            Err(e) => Err(ExpandError::Parse(e)),
        }
    }
}



pub enum ShapeView {
    Struct(Seq<Seq<char>>),
    Enum,
    Union,
}

pub struct TargetView {
    pub ident: Seq<char>,
    pub shape: ShapeView,
    pub attrs: Seq<(Seq<char>, Seq<char>)>,
}

impl View for DeriveTarget {
    type V = TargetView;

    open spec fn view(&self) -> TargetView {
        TargetView {
            ident: self.ident@,
            shape: match self.shape {
                DataShape::Struct(f) => ShapeView::Struct(f.deep_view()),
                DataShape::Enum => ShapeView::Enum,
                DataShape::Union => ShapeView::Union,
            },
            attrs: self.attrs.deep_view(),
        }
    }
}

/// Path segments joined by `::`.
pub open spec fn path_code(p: Seq<Seq<char>>) -> Seq<char>
    decreases p.len(),
{
    if p.len() == 0 {
        Seq::empty()
    } else if p.len() == 1 {
        p[0]
    } else {
        path_code(p.drop_last()) + "::"@ + p.last()
    }
}

/// The source text of one builder call.
pub open spec fn call_code(c: CallView) -> Seq<char> {
    match c {
        CallView::Method { name, value } => "."@ + name + "("@ + value + ")"@,
        CallView::Data { key, value } => ".data(\""@ + key + "\", "@ + value + ")"@,
    }
}

/// The source text of a chain of builder calls.
pub open spec fn calls_code(cs: Seq<CallView>) -> Seq<char>
    decreases cs.len(),
{
    if cs.len() == 0 {
        Seq::empty()
    } else {
        calls_code(cs.drop_last()) + call_code(cs.last())
    }
}

/// The source text that pushes each field of the value as a text child.
pub open spec fn children_code(fields: Seq<Seq<char>>) -> Seq<char>
    decreases fields.len(),
{
    if fields.len() == 0 {
        Seq::empty()
    } else {
        children_code(fields.drop_last()) + ".push(::html::Node::text(&self."@ + fields.last() + "))"@
    }
}

/// The implementation of `ToHtmlElement` for the type `ident`.
pub open spec fn impl_code(ident: Seq<char>, tag: Seq<Seq<char>>, calls: Seq<CallView>, fields: Seq<Seq<char>>) -> Seq<char> {
    "impl ::html::ToHtmlElement for "@ + ident + " { type Element = "@ + path_code(tag)
        + "; fn to_html_element(&self) -> Self::Element { <Self::Element>::builder()"@ + calls_code(calls)
        + children_code(fields) + ".build() } }"@
}

/// The target element kind when a type carries no description.
pub open spec fn default_tag() -> Seq<Seq<char>> {
    seq!["html"@, "text_content"@, "Division"@]
}

/// The result of expanding the derive on a target.
pub open spec fn expansion(t: TargetView) -> Result<Seq<char>, ExpandError> {
    match description_of(t.attrs) {
        Err(e) => Err(e),
        Ok(found) => {
            let (tag, attributes) = match found {
                Some(d) => (d.tag, d.attributes),
                None => (default_tag(), Seq::empty()),
            };
            match t.shape {
                ShapeView::Enum => Err(ExpandError::EnumNotSupported),
                ShapeView::Union => Err(ExpandError::UnionNotSupported),
                ShapeView::Struct(fields) => if all_supported(attributes) {
                    Ok(impl_code(t.ident, tag, attributes.map_values(|a: AssignmentView| call_of(a).unwrap()), fields))
                } else {
                    Err(ExpandError::UnsupportedKey(first_unsupported(attributes) as usize))
                },
            }
        },
    }
}

proof fn lemma_positions_are_annotations(s: Seq<(Seq<char>, Seq<char>)>)
    requires
        s.len() <= usize::MAX,
    ensures
        forall|j: int| 0 <= j < annotation_positions(s).len() ==> {
            &&& #[trigger] annotation_positions(s)[j] < s.len()
            &&& s[annotation_positions(s)[j] as int].0 == annotation_name()
        },
        forall|j: int, m: int| 0 <= j < m < annotation_positions(s).len() ==> annotation_positions(s)[j] < annotation_positions(s)[m],
    decreases s.len(),
{
    if s.len() > 0 {
        let t = s.drop_last();
        lemma_positions_are_annotations(t);
        let p = annotation_positions(t);
        assert forall|j: int| 0 <= j < annotation_positions(s).len() implies {
            &&& #[trigger] annotation_positions(s)[j] < s.len()
            &&& s[annotation_positions(s)[j] as int].0 == annotation_name()
        } by {
            if j < p.len() {
                assert(annotation_positions(s)[j] == p[j]);
                assert(s[p[j] as int] == t[p[j] as int]);
            }
        }
    }
}

/// A target that carries two or more element-description annotations
/// fails to expand, and the error names the position of the second one,
/// which is such an annotation.
pub proof fn lemma_duplicate_description_rejected(t: TargetView)
    requires
        t.attrs.len() <= usize::MAX,
        annotation_positions(t.attrs).len() >= 2,
    ensures
        expansion(t) == Err::<Seq<char>, ExpandError>(ExpandError::DuplicateDescription(annotation_positions(t.attrs)[1])),
        t.attrs[annotation_positions(t.attrs)[1] as int].0 == annotation_name(),
        annotation_positions(t.attrs)[0] < annotation_positions(t.attrs)[1],
{
    lemma_positions_are_annotations(t.attrs);
    assert(annotation_positions(t.attrs)[1] < t.attrs.len());
}

/// An assignment keyed `data::name` becomes a dataset call keyed `name`,
/// never a call of a builder method, at its place in the chain.
pub proof fn lemma_dataset_routing(t: TargetView, d: DescriptionView, i: int, name: Seq<char>)
    requires
        description_of(t.attrs) == Ok::<Option<DescriptionView>, ExpandError>(Some(d)),
        t.shape is Struct,
        all_supported(d.attributes),
        0 <= i < d.attributes.len(),
        d.attributes[i].key == seq!["data"@, name],
    ensures
        ({
            let calls = d.attributes.map_values(|a: AssignmentView| call_of(a).unwrap());
            &&& expansion(t) == Ok::<Seq<char>, ExpandError>(impl_code(t.ident, d.tag, calls, t.shape->Struct_0))
            &&& calls[i] == CallView::Data { key: name, value: d.attributes[i].value }
        }),
{
    assert(call_of(d.attributes[i]).is_some());
}

proof fn lemma_calls_code_concat(a: Seq<CallView>, b: Seq<CallView>)
    ensures
        calls_code(a + b) == calls_code(a) + calls_code(b),
    decreases b.len(),
{
    if b.len() == 0 {
        assert(a + b =~= a);
        assert(calls_code(a) + Seq::<char>::empty() =~= calls_code(a));
    } else {
        lemma_calls_code_concat(a, b.drop_last());
        assert((a + b).drop_last() =~= a + b.drop_last());
        assert((a + b).last() == b.last());
        assert(calls_code(a + b) =~= calls_code(a) + calls_code(b));
    }
}

/// In the emitted implementation, an assignment keyed `data::name` stands
/// as the call `.data("name", value)`.
pub proof fn lemma_dataset_call_in_code(t: TargetView, d: DescriptionView, i: int, name: Seq<char>)
    requires
        description_of(t.attrs) == Ok::<Option<DescriptionView>, ExpandError>(Some(d)),
        t.shape is Struct,
        all_supported(d.attributes),
        0 <= i < d.attributes.len(),
        d.attributes[i].key == seq!["data"@, name],
    ensures
        exists|pre: Seq<char>, post: Seq<char>|
            expansion(t) == Ok::<Seq<char>, ExpandError>(
                pre + (".data(\""@ + name + "\", "@ + d.attributes[i].value + ")"@) + post,
            ),
{
    lemma_dataset_routing(t, d, i, name);
    let calls = d.attributes.map_values(|a: AssignmentView| call_of(a).unwrap());
    let head = calls.take(i);
    let tail = calls.skip(i + 1);
    assert(calls =~= head.push(calls[i]) + tail);
    lemma_calls_code_concat(head.push(calls[i]), tail);
    assert(head.push(calls[i]).drop_last() =~= head);
    let fields = t.shape->Struct_0;
    let pre = "impl ::html::ToHtmlElement for "@ + t.ident + " { type Element = "@ + path_code(d.tag)
        + "; fn to_html_element(&self) -> Self::Element { <Self::Element>::builder()"@ + calls_code(head);
    let post = calls_code(tail) + children_code(fields) + ".build() } }"@;
    let call = ".data(\""@ + name + "\", "@ + d.attributes[i].value + ")"@;
    assert(call_code(calls[i]) == call);
    assert(impl_code(t.ident, d.tag, calls, fields) =~= pre + call + post);
}

fn write_path(out: &mut String, p: &Vec<String>)
    ensures
        final(out)@ == old(out)@ + path_code(p.deep_view()),
{
    let ghost pv = p.deep_view();
    let mut i: usize = 0;
    assert(out@ =~= old(out)@ + path_code(pv.take(0)));
    while i < p.len()
        invariant
            i <= pv.len(),
            pv == p.deep_view(),
            out@ == old(out)@ + path_code(pv.take(i as int)),
        decreases pv.len() - i,
    {
        assert(pv[i as int] == p@[i as int]@);
        if i > 0 {
            push_str(out, "::");
        }
        push_str(out, p[i].as_str());
        assert(pv.take(i + 1).drop_last() =~= pv.take(i as int));
        assert(out@ =~= old(out)@ + path_code(pv.take(i + 1)));
        i = i + 1;
    }
    assert(pv.take(i as int) =~= pv);
}

fn write_call(out: &mut String, c: &BuilderCall)
    ensures
        final(out)@ == old(out)@ + call_code(c@),
{
    match c {
        BuilderCall::Method { name, value } => {
            push_str(out, ".");
            push_str(out, name.as_str());
            push_str(out, "(");
            push_str(out, value.as_str());
            push_str(out, ")");
        },
        BuilderCall::Data { key, value } => {
            push_str(out, ".data(\"");
            push_str(out, key.as_str());
            push_str(out, "\", ");
            push_str(out, value.as_str());
            push_str(out, ")");
        },
    }
    assert(out@ =~= old(out)@ + call_code(c@));
}

fn write_calls(out: &mut String, cs: &Vec<BuilderCall>)
    ensures
        final(out)@ == old(out)@ + calls_code(calls_view(cs@)),
{
    let ghost cv = calls_view(cs@);
    let mut i: usize = 0;
    assert(out@ =~= old(out)@ + calls_code(cv.take(0)));
    while i < cs.len()
        invariant
            i <= cv.len(),
            cv == calls_view(cs@),
            out@ == old(out)@ + calls_code(cv.take(i as int)),
        decreases cv.len() - i,
    {
        write_call(out, &cs[i]);
        assert(cv.take(i + 1).drop_last() =~= cv.take(i as int));
        assert(out@ =~= old(out)@ + calls_code(cv.take(i + 1)));
        i = i + 1;
    }
    assert(cv.take(i as int) =~= cv);
}

fn write_children(out: &mut String, fields: &Vec<String>)
    ensures
        final(out)@ == old(out)@ + children_code(fields.deep_view()),
{
    let ghost fv = fields.deep_view();
    let mut i: usize = 0;
    assert(out@ =~= old(out)@ + children_code(fv.take(0)));
    while i < fields.len()
        invariant
            i <= fv.len(),
            fv == fields.deep_view(),
            out@ == old(out)@ + children_code(fv.take(i as int)),
        decreases fv.len() - i,
    {
        assert(fv[i as int] == fields@[i as int]@);
        push_str(out, ".push(::html::Node::text(&self.");
        push_str(out, fields[i].as_str());
        push_str(out, "))");
        assert(fv.take(i + 1).drop_last() =~= fv.take(i as int));
        assert(out@ =~= old(out)@ + children_code(fv.take(i + 1)));
        i = i + 1;
    }
    assert(fv.take(i as int) =~= fv);
}

/// The source text that pushes each field, named or by position, as a
/// text child, in declaration order.
pub fn parse_fields(fields: &Vec<String>) -> (r: String)
    ensures
        r@ == children_code(fields.deep_view()),
{
    let mut out = String::new();
    write_children(&mut out, fields);
    assert(out@ =~= children_code(fields.deep_view()));
    out
}

/// The children part of the builder chain for a target's shape: a struct's
/// fields become children; an enum or a union is rejected.
pub fn parse_data(shape: &DataShape) -> (r: Result<String, ExpandError>)
    ensures
        match shape {
            DataShape::Struct(f) => r is Ok && r->Ok_0@ == children_code(f.deep_view()),
            DataShape::Enum => r == Err::<String, ExpandError>(ExpandError::EnumNotSupported),
            DataShape::Union => r == Err::<String, ExpandError>(ExpandError::UnionNotSupported),
        },
{
    match shape {
        DataShape::Struct(fields) => Ok(parse_fields(fields)),
        DataShape::Enum => Err(ExpandError::EnumNotSupported),
        DataShape::Union => Err(ExpandError::UnionNotSupported),
    }
}

fn default_tag_exec() -> (r: Vec<String>)
    ensures
        r.deep_view() == default_tag(),
{
    let mut r: Vec<String> = Vec::new();
    r.push("html".to_owned());
    r.push("text_content".to_owned());
    r.push("Division".to_owned());
    assert(r.deep_view() =~= default_tag());
    r
}

/// Expands the derive of `ToHtmlElement` on a target: finds its element
/// description (or takes the default container), turns each assignment
/// into a builder call in source order, pushes each field as a child, and
/// returns the source text of the implementation.
pub fn expand_derive_to_html_element(target: &DeriveTarget) -> (r: Result<String, ExpandError>)
    ensures
        match expansion(target@) {
            Ok(code) => r is Ok && r->Ok_0@ == code,
            Err(e) => r == Err::<String, ExpandError>(e),
        },
{
    let found = match find_element_description(&target.attrs) {
        Ok(found) => found,
        Err(e) => {
            return Err(e);
        },
    };
    let d = match found {
        Some(d) => d,
        None => {
            let d = ElementDescription { tag: default_tag_exec(), attributes: Vec::new() };
            assert(crate::description::assignments_view(d.attributes@) =~= Seq::<AssignmentView>::empty());
            d
        },
    };
    let children = match parse_data(&target.shape) {
        Ok(children) => children,
        Err(e) => {
            return Err(e);
        },
    };
    let calls = match builder_calls(&d) {
        Ok(calls) => calls,
        Err(e) => {
            return Err(e);
        },
    };
    let mut out = String::new();
    push_str(&mut out, "impl ::html::ToHtmlElement for ");
    push_str(&mut out, target.ident.as_str());
    push_str(&mut out, " { type Element = ");
    write_path(&mut out, &d.tag);
    push_str(&mut out, "; fn to_html_element(&self) -> Self::Element { <Self::Element>::builder()");
    write_calls(&mut out, &calls);
    push_str(&mut out, children.as_str());
    push_str(&mut out, ".build() } }");
    assert(out@ =~= impl_code(target.ident@, d@.tag, calls_view(calls@), target@.shape->Struct_0));
    Ok(out)
}

} // verus!
