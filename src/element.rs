//! The rendering contract shared by all element kinds: an opening tag made
//! of the tag name, the element's own fields, the global attributes and the
//! dataset, and a closing tag unless the kind is void.

use vstd::prelude::*;
use crate::dataset::{entries_markup, lemma_set_entry_rendered, set_entry, DataMap};
use crate::embedded::{Image, MediaSource};
use crate::forms::Input;
use crate::global::GlobalAttributes;
use crate::metadata::Meta;
use crate::tables::TableColumn;
use crate::text::LineBreakOpportunity;
use crate::markup::{escape, field_pairs, fields_markup, push_field_pairs, push_str, write_escaped, write_fields, Field};

verus! {

/// `<tag` followed by the markup of the element's own fields in declaration
/// order, then the global attributes, then the dataset, then `>`.
pub open spec fn opening_tag_markup(
    tag: Seq<char>,
    fields: Seq<Field>,
    global: Seq<Field>,
    data: Seq<(Seq<char>, Seq<char>)>,
) -> Seq<char> {
    "<"@ + tag + fields_markup(fields) + fields_markup(global) + entries_markup(data) + ">"@
}

/// `</tag>`, or nothing for a void element kind.
pub open spec fn closing_tag_markup(tag: Seq<char>, void: bool) -> Seq<char> {
    if void {
        Seq::empty()
    } else {
        "</"@ + tag + ">"@
    }
}

/// The void element kinds (image, line-break opportunity, media source,
/// table column, meta, input) have no closing tag, whatever their
/// attributes: their markup is their opening tag alone.
pub proof fn lemma_void_kinds_have_no_closing_tag(
    img: Image,
    wbr: LineBreakOpportunity,
    source: MediaSource,
    col: TableColumn,
    meta: Meta,
    input: Input,
)
    ensures
        img.closing_markup() == Seq::<char>::empty() && img.markup() == img.opening_markup(),
        wbr.closing_markup() == Seq::<char>::empty() && wbr.markup() == wbr.opening_markup(),
        source.closing_markup() == Seq::<char>::empty() && source.markup() == source.opening_markup(),
        col.closing_markup() == Seq::<char>::empty() && col.markup() == col.opening_markup(),
        meta.closing_markup() == Seq::<char>::empty() && meta.markup() == meta.opening_markup(),
        input.closing_markup() == Seq::<char>::empty() && input.markup() == input.opening_markup(),
{
    assert(img.opening_markup() + Seq::<char>::empty() =~= img.opening_markup());
    assert(wbr.opening_markup() + Seq::<char>::empty() =~= wbr.opening_markup());
    assert(source.opening_markup() + Seq::<char>::empty() =~= source.opening_markup());
    assert(col.opening_markup() + Seq::<char>::empty() =~= col.opening_markup());
    assert(meta.opening_markup() + Seq::<char>::empty() =~= meta.opening_markup());
    assert(input.opening_markup() + Seq::<char>::empty() =~= input.opening_markup());
}

/// After the dataset entry `key` is set to `value`, the opening tag of an
/// element of any kind holds ` data-key="value"` (the value escaped), in
/// the dataset block after the attributes.
pub proof fn lemma_dataset_entry_in_opening_tag(
    tag: Seq<char>,
    fields: Seq<Field>,
    global: Seq<Field>,
    data: Seq<(Seq<char>, Seq<char>)>,
    key: Seq<char>,
    value: Seq<char>,
)
    ensures
        exists|pre: Seq<char>, post: Seq<char>|
            opening_tag_markup(tag, fields, global, set_entry(data, key, value)) == "<"@ + tag + fields_markup(fields)
                + fields_markup(global) + pre + (" data-"@ + key + "=\""@ + escape(value) + "\""@) + post + ">"@,
{
    let entry = " data-"@ + key + "=\""@ + escape(value) + "\""@;
    lemma_set_entry_rendered(data, key, value);
    let (pre, post) = choose|pre: Seq<char>, post: Seq<char>|
        entries_markup(set_entry(data, key, value)) == pre + entry + post;
    let head = "<"@ + tag + fields_markup(fields) + fields_markup(global);
    assert(opening_tag_markup(tag, fields, global, set_entry(data, key, value)) =~= head + pre + entry + post + ">"@);
}

/// Appends the opening tag of an element.
pub fn write_opening_tag(
    out: &mut String,
    tag: &str,
    fields: &Vec<Field>,
    global: &GlobalAttributes,
    data: &DataMap,
)
    ensures
        final(out)@ == old(out)@ + opening_tag_markup(tag@, fields@, global.field_list(), data@),
{
    push_str(out, "<");
    push_str(out, tag);
    write_fields(out, fields);
    let g = global.fields();
    write_fields(out, &g);
    data.write(out);
    push_str(out, ">");
    assert(out@ =~= old(out)@ + opening_tag_markup(tag@, fields@, global.field_list(), data@));
}

/// Appends the closing tag of an element, which is nothing for a void kind.
pub fn write_closing_tag(out: &mut String, tag: &str, void: bool)
    ensures
        final(out)@ == old(out)@ + closing_tag_markup(tag@, void),
{
    if !void {
        push_str(out, "</");
        push_str(out, tag);
        push_str(out, ">");
        assert(out@ =~= old(out)@ + closing_tag_markup(tag@, void));
    } else {
        assert(out@ =~= old(out)@ + closing_tag_markup(tag@, void));
    }
}

/// The present attributes of an element as (name, value) pairs: its own
/// fields, then the global ones.
pub fn collect_attributes(fields: &Vec<Field>, global: &GlobalAttributes) -> (r: Vec<(String, String)>)
    ensures
        r.deep_view() == field_pairs(fields@) + field_pairs(global.field_list()),
{
    let mut r: Vec<(String, String)> = Vec::new();
    assert(r.deep_view() =~= Seq::<(Seq<char>, Seq<char>)>::empty());
    push_field_pairs(&mut r, fields);
    let g = global.fields();
    push_field_pairs(&mut r, &g);
    assert(r.deep_view() =~= field_pairs(fields@) + field_pairs(global.field_list()));
    r
}


/// A child of a container element.
#[derive(Debug, Clone, PartialEq)]
pub enum Node {
    /// An element, held as the markup it renders to.
    Element(String),
    /// A text node.
    Text(String),
}

/// The markup of a node: an element's own markup, or the escaped text.
pub open spec fn node_markup(n: Node) -> Seq<char> {
    match n {
        Node::Element(m) => m@,
        Node::Text(t) => escape(t@),
    }
}

/// The markup of a list of nodes, in order.
pub open spec fn nodes_markup(s: Seq<Node>) -> Seq<char>
    decreases s.len(),
{
    if s.len() == 0 {
        Seq::empty()
    } else {
        nodes_markup(s.drop_last()) + node_markup(s.last())
    }
}

/// An HTML element of any kind.
pub trait HtmlElement {
    /// The markup of the whole element.
    spec fn spec_markup(&self) -> Seq<char>;

    /// The tag name of the element kind.
    spec fn spec_tag_name(&self) -> Seq<char>;

    /// The child nodes, in order.
    spec fn spec_children(&self) -> Seq<Node>;

    /// The present attributes as (name, value) pairs.
    spec fn spec_attributes(&self) -> Seq<(Seq<char>, Seq<char>)>;

    /// The dataset entries.
    spec fn spec_data(&self) -> Seq<(Seq<char>, Seq<char>)>;

    /// The tag name of the element kind.
    fn tag_name(&self) -> (r: &'static str)
        ensures
            r@ == self.spec_tag_name(),
    ;

    /// The present attributes as (name, value) pairs, a true flag as
    /// `true`: the element's own, then the global ones.
    fn attributes(&self) -> (r: Vec<(String, String)>)
        ensures
            r.deep_view() == self.spec_attributes(),
    ;

    /// The dataset.
    fn data(&self) -> (r: &DataMap)
        ensures
            r@ == self.spec_data(),
    ;

    /// The markup of the whole element.
    fn to_html(&self) -> (r: String)
        ensures
            r@ == self.spec_markup(),
    ;

    /// The child nodes, in order; none for an element that has no children.
    fn children(&self) -> (r: Vec<Node>)
        ensures
            r@ == self.spec_children(),
    ;
}

/// A value that converts into an element.
pub trait ToHtmlElement {
    type Element: HtmlElement;

    fn to_html_element(&self) -> Self::Element;
}

/// `depth` levels of indentation, four spaces each.
pub open spec fn indent(depth: nat) -> Seq<char>
    decreases depth,
{
    if depth == 0 {
        Seq::empty()
    } else {
        indent((depth - 1) as nat) + "    "@
    }
}

/// Rendering with indentation.
pub trait Render {
    /// What `render` appends at a given depth.
    spec fn rendered(&self, depth: nat) -> Seq<char>;

    /// Appends the value, indented by `depth` levels.
    fn render(&self, out: &mut String, depth: usize)
        ensures
            final(out)@ == old(out)@ + self.rendered(depth as nat),
    ;
}

impl Render for String {
    open spec fn rendered(&self, depth: nat) -> Seq<char> {
        indent(depth) + self@
    }

    fn render(&self, out: &mut String, depth: usize) {
        let mut i: usize = 0;
        assert(out@ =~= old(out)@ + indent(0));
        while i < depth
            invariant
                i <= depth,
                out@ == old(out)@ + indent(i as nat),
            decreases depth - i,
        {
            push_str(out, "    ");
            assert(out@ =~= old(out)@ + indent((i + 1) as nat));
            i = i + 1;
        }
        push_str(out, self.as_str());
        assert(out@ =~= old(out)@ + self.rendered(depth as nat));
    }
}

impl Node {
    /// A text node.
    pub fn text(s: &str) -> (r: Node)
        ensures
            r is Text && r->Text_0@ == s@,
    {
        Node::Text(s.to_owned())
    }

    /// A node for an element, holding its markup.
    pub fn element<E: HtmlElement>(e: &E) -> (r: Node)
        ensures
            r is Element && r->Element_0@ == e.spec_markup(),
    {
        Node::Element(e.to_html())
    }

    /// A copy of this node.
    pub fn clone_node(&self) -> (r: Node)
        ensures
            r == *self,
    {
        match self {
            Node::Element(m) => Node::Element(m.clone()),
            Node::Text(t) => Node::Text(t.clone()),
        }
    }

    /// Appends the markup of this node.
    pub fn write(&self, out: &mut String)
        ensures
            final(out)@ == old(out)@ + node_markup(*self),
    {
        match self {
            Node::Element(m) => push_str(out, m.as_str()),
            Node::Text(t) => write_escaped(out, t.as_str()),
        }
    }
}

/// Appends the markup of each node, in order.
pub fn write_nodes(out: &mut String, nodes: &Vec<Node>)
    ensures
        final(out)@ == old(out)@ + nodes_markup(nodes@),
{
    let mut i: usize = 0;
    assert(out@ =~= old(out)@ + nodes_markup(nodes@.take(0)));
    while i < nodes.len()
        invariant
            i <= nodes@.len(),
            out@ == old(out)@ + nodes_markup(nodes@.take(i as int)),
        decreases nodes@.len() - i,
    {
        nodes[i].write(out);
        assert(nodes@.take(i + 1).drop_last() =~= nodes@.take(i as int));
        assert(out@ =~= old(out)@ + nodes_markup(nodes@.take(i + 1)));
        i = i + 1;
    }
    assert(nodes@.take(i as int) =~= nodes@);
}

} // verus!
