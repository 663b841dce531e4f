//! Grouping content.

use vstd::prelude::*;
use crate::dataset::{set_entry, DataMap};
use crate::element::{
    closing_tag_markup, collect_attributes, nodes_markup, opening_tag_markup, write_closing_tag, write_nodes,
    write_opening_tag, HtmlElement, Node,
};
use crate::global::GlobalAttributes;
use crate::markup::{field_pairs, Field};

verus! {

/// The HTML `<div>` element
#[derive(Debug, Clone, PartialEq, Default)]
pub struct Division {
    /// The `data-*` attributes.
    pub data_map: DataMap,
    /// The attributes that every element kind has.
    pub global_attrs: GlobalAttributes,

    /// The child nodes, in order.
    pub children: Vec<Node>,
}

impl Division {
    /// Whether this element kind is void, that is, has no closing tag.
    pub fn is_void(&self) -> (r: bool)
        ensures
            r == false,
    {
        false
    }

    /// The declared attribute fields, in markup order.
    pub open spec fn field_list(&self) -> Seq<Field> {
        Seq::empty()
    }

    /// The declared attribute fields with their current values.
    pub fn fields(&self) -> (r: Vec<Field>)
        ensures
            r@ == self.field_list(),
    {
        let mut r: Vec<Field> = Vec::new();
        r
    }

    /// The markup of the opening tag.
    pub open spec fn opening_markup(&self) -> Seq<char> {
        opening_tag_markup("div"@, self.field_list(), self.global_attrs.field_list(), self.data_map@)
    }

    /// The markup of the closing tag.
    pub open spec fn closing_markup(&self) -> Seq<char> {
        closing_tag_markup("div"@, false)
    }

    /// Appends the opening tag.
    pub fn write_opening_tag(&self, writer: &mut String)
        ensures
            final(writer)@ == old(writer)@ + self.opening_markup(),
    {
        let fields = self.fields();
        write_opening_tag(writer, "div", &fields, &self.global_attrs, &self.data_map);
    }

    /// Appends the closing tag.
    pub fn write_closing_tag(&self, writer: &mut String)
        ensures
            final(writer)@ == old(writer)@ + self.closing_markup(),
    {
        write_closing_tag(writer, "div", false);
    }

    /// The markup of the whole element.
    pub open spec fn markup(&self) -> Seq<char> {
        self.opening_markup() + nodes_markup(self.children@) + self.closing_markup()
    }

    /// The markup of the element: its opening tag, its children if it has
    /// any, then its closing tag.
    pub fn to_string(&self) -> (r: String)
        ensures
            r@ == self.markup(),
    {
        let mut r = String::new();
        self.write_opening_tag(&mut r);
        write_nodes(&mut r, &self.children);
        self.write_closing_tag(&mut r);
        assert(r@ =~= self.markup());
        r
    }

    /// The global attributes.
    pub fn global_attributes(&self) -> (r: &GlobalAttributes)
        ensures
            *r == self.global_attrs,
    {
        &self.global_attrs
    }

    /// The global attributes, for changing them in place.
    pub fn global_attributes_mut(&mut self) -> (r: &mut GlobalAttributes)
        ensures
            *r == old(self).global_attrs,
            *final(self) == (Division { global_attrs: *final(r), ..*old(self) }),
    {
        &mut self.global_attrs
    }
}

impl HtmlElement for Division {
    open spec fn spec_markup(&self) -> Seq<char> {
        self.markup()
    }

    open spec fn spec_tag_name(&self) -> Seq<char> {
        "div"@
    }

    open spec fn spec_children(&self) -> Seq<Node> {
        self.children@
    }

    open spec fn spec_attributes(&self) -> Seq<(Seq<char>, Seq<char>)> {
        field_pairs(self.field_list()) + field_pairs(self.global_attrs.field_list())
    }

    open spec fn spec_data(&self) -> Seq<(Seq<char>, Seq<char>)> {
        self.data_map@
    }

    fn attributes(&self) -> (r: Vec<(String, String)>) {
        let fields = self.fields();
        collect_attributes(&fields, &self.global_attrs)
    }

    fn data(&self) -> (r: &DataMap) {
        &self.data_map
    }

    fn tag_name(&self) -> (r: &'static str) {
        "div"
    }

    fn to_html(&self) -> (r: String) {
        self.to_string()
    }

    fn children(&self) -> (r: Vec<Node>) {
        let mut r: Vec<Node> = Vec::new();
        let mut i: usize = 0;
        while i < self.children.len()
            invariant
                i <= self.children@.len(),
                r@ == self.children@.take(i as int),
            decreases self.children@.len() - i,
        {
            r.push(self.children[i].clone_node());
            assert(r@ =~= self.children@.take(i + 1));
            i = i + 1;
        }
        assert(self.children@.take(i as int) =~= self.children@);
        r
    }
}

impl Division {
    /// An element with no attribute set and no child.
    pub fn new() -> (r: Division)
        ensures
            r.data_map@ == Seq::<(Seq<char>, Seq<char>)>::empty(),
            r.global_attrs == GlobalAttributes::blank(),
            r.children@ == Seq::<Node>::empty(),
    {
        Division {
            data_map: DataMap::new(),
            global_attrs: GlobalAttributes::new(),
            children: Vec::new(),
        }
    }

    /// A builder that starts from an element with nothing set.
    pub fn builder() -> (r: DivisionBuilder)
        ensures
            Division::is_blank(r.element),
    {
        DivisionBuilder { element: Division::new() }
    }

    /// Whether `e` is an element with nothing set.
    pub open spec fn is_blank(e: Division) -> bool {
        e.data_map@ == Seq::<(Seq<char>, Seq<char>)>::empty() && e.global_attrs == GlobalAttributes::blank() && e.children@ == Seq::<Node>::empty()
    }

}

/// Builds a [`Division`] one attribute at a time.
pub struct DivisionBuilder {
    /// The element built so far.
    pub element: Division,
}

impl DivisionBuilder {
    /// Sets the global attribute `class`.
    pub fn class(self, value: &str) -> (r: DivisionBuilder)
        ensures
            r.element.global_attrs.class is Some && r.element.global_attrs.class->Some_0@ == value@,
            r.element == (Division {
                global_attrs: (GlobalAttributes { class: r.element.global_attrs.class, ..self.element.global_attrs }),
                ..self.element
            }),
    {
        let mut element = self.element;
        element.global_attrs.class = Some(value.to_owned());
        DivisionBuilder { element }
    }

    /// Sets the global attribute `id`.
    pub fn id(self, value: &str) -> (r: DivisionBuilder)
        ensures
            r.element.global_attrs.id is Some && r.element.global_attrs.id->Some_0@ == value@,
            r.element == (Division {
                global_attrs: (GlobalAttributes { id: r.element.global_attrs.id, ..self.element.global_attrs }),
                ..self.element
            }),
    {
        let mut element = self.element;
        element.global_attrs.id = Some(value.to_owned());
        DivisionBuilder { element }
    }

    /// Sets the global attribute `lang`.
    pub fn lang(self, value: &str) -> (r: DivisionBuilder)
        ensures
            r.element.global_attrs.lang is Some && r.element.global_attrs.lang->Some_0@ == value@,
            r.element == (Division {
                global_attrs: (GlobalAttributes { lang: r.element.global_attrs.lang, ..self.element.global_attrs }),
                ..self.element
            }),
    {
        let mut element = self.element;
        element.global_attrs.lang = Some(value.to_owned());
        DivisionBuilder { element }
    }

    /// Sets the global attribute `style`.
    pub fn style(self, value: &str) -> (r: DivisionBuilder)
        ensures
            r.element.global_attrs.style is Some && r.element.global_attrs.style->Some_0@ == value@,
            r.element == (Division {
                global_attrs: (GlobalAttributes { style: r.element.global_attrs.style, ..self.element.global_attrs }),
                ..self.element
            }),
    {
        let mut element = self.element;
        element.global_attrs.style = Some(value.to_owned());
        DivisionBuilder { element }
    }

    /// Sets the global attribute `title`.
    pub fn title(self, value: &str) -> (r: DivisionBuilder)
        ensures
            r.element.global_attrs.title is Some && r.element.global_attrs.title->Some_0@ == value@,
            r.element == (Division {
                global_attrs: (GlobalAttributes { title: r.element.global_attrs.title, ..self.element.global_attrs }),
                ..self.element
            }),
    {
        let mut element = self.element;
        element.global_attrs.title = Some(value.to_owned());
        DivisionBuilder { element }
    }

    /// Sets the dataset entry `key` to `value`.
    pub fn data(self, key: &str, value: &str) -> (r: DivisionBuilder)
        ensures
            r.element.data_map@ == set_entry(self.element.data_map@, key@, value@),
            self.element.data_map.wf() ==> r.element.data_map.wf(),
            r.element == (Division { data_map: r.element.data_map, ..self.element }),
    {
        let mut element = self.element;
        element.data_map.insert(key.to_owned(), value.to_owned());
        DivisionBuilder { element }
    }

    /// Appends a child node.
    pub fn push(self, child: Node) -> (r: DivisionBuilder)
        ensures
            r.element.children@ == self.element.children@.push(child),
            r.element == (Division { children: r.element.children, ..self.element }),
    {
        let mut element = self.element;
        element.children.push(child);
        DivisionBuilder { element }
    }

    /// The element built.
    pub fn build(self) -> (r: Division)
        ensures
            r == self.element,
    {
        self.element
    }
}

} // verus!
