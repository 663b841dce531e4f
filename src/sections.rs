//! Sectioning elements.

use vstd::prelude::*;
use crate::dataset::DataMap;
use crate::element::{
    closing_tag_markup, collect_attributes, opening_tag_markup, write_closing_tag, write_opening_tag, HtmlElement,
    Node,
};
use crate::global::GlobalAttributes;
use crate::markup::{field_pairs, Field};

verus! {

/// The HTML `<body>` element
#[derive(Debug, Clone, PartialEq, Default)]
pub struct Body {
    /// The `data-*` attributes.
    pub data_map: DataMap,
    /// The attributes that every element kind has.
    pub global_attrs: GlobalAttributes,

}

impl Body {
    /// Whether this element kind is void, that is, has no closing tag.
    pub fn is_void(&self) -> (r: bool)
        ensures
            r == false,
    {
        false
    }

    /// The declared attribute fields, in markup order.
    pub open spec fn field_list(&self) -> Seq<Field> {
        Seq::empty()
    }

    /// The declared attribute fields with their current values.
    pub fn fields(&self) -> (r: Vec<Field>)
        ensures
            r@ == self.field_list(),
    {
        let mut r: Vec<Field> = Vec::new();
        r
    }

    /// The markup of the opening tag.
    pub open spec fn opening_markup(&self) -> Seq<char> {
        opening_tag_markup("body"@, self.field_list(), self.global_attrs.field_list(), self.data_map@)
    }

    /// The markup of the closing tag.
    pub open spec fn closing_markup(&self) -> Seq<char> {
        closing_tag_markup("body"@, false)
    }

    /// Appends the opening tag.
    pub fn write_opening_tag(&self, writer: &mut String)
        ensures
            final(writer)@ == old(writer)@ + self.opening_markup(),
    {
        let fields = self.fields();
        write_opening_tag(writer, "body", &fields, &self.global_attrs, &self.data_map);
    }

    /// Appends the closing tag.
    pub fn write_closing_tag(&self, writer: &mut String)
        ensures
            final(writer)@ == old(writer)@ + self.closing_markup(),
    {
        write_closing_tag(writer, "body", false);
    }

    /// The markup of the whole element.
    pub open spec fn markup(&self) -> Seq<char> {
        self.opening_markup() + self.closing_markup()
    }

    /// The markup of the element: its opening tag, its children if it has
    /// any, then its closing tag.
    pub fn to_string(&self) -> (r: String)
        ensures
            r@ == self.markup(),
    {
        let mut r = String::new();
        self.write_opening_tag(&mut r);
        self.write_closing_tag(&mut r);
        assert(r@ =~= self.markup());
        r
    }

    /// The global attributes.
    pub fn global_attributes(&self) -> (r: &GlobalAttributes)
        ensures
            *r == self.global_attrs,
    {
        &self.global_attrs
    }

    /// The global attributes, for changing them in place.
    pub fn global_attributes_mut(&mut self) -> (r: &mut GlobalAttributes)
        ensures
            *r == old(self).global_attrs,
            *final(self) == (Body { global_attrs: *final(r), ..*old(self) }),
    {
        &mut self.global_attrs
    }
}

impl HtmlElement for Body {
    open spec fn spec_markup(&self) -> Seq<char> {
        self.markup()
    }

    open spec fn spec_tag_name(&self) -> Seq<char> {
        "body"@
    }

    open spec fn spec_children(&self) -> Seq<Node> {
        Seq::empty()
    }

    open spec fn spec_attributes(&self) -> Seq<(Seq<char>, Seq<char>)> {
        field_pairs(self.field_list()) + field_pairs(self.global_attrs.field_list())
    }

    open spec fn spec_data(&self) -> Seq<(Seq<char>, Seq<char>)> {
        self.data_map@
    }

    fn attributes(&self) -> (r: Vec<(String, String)>) {
        let fields = self.fields();
        collect_attributes(&fields, &self.global_attrs)
    }

    fn data(&self) -> (r: &DataMap) {
        &self.data_map
    }

    fn tag_name(&self) -> (r: &'static str) {
        "body"
    }

    fn to_html(&self) -> (r: String) {
        self.to_string()
    }

    fn children(&self) -> (r: Vec<Node>) {
        Vec::new()
    }
}

/// The HTML `<section>` element
#[derive(Debug, Clone, PartialEq, Default)]
pub struct Section {
    /// The `data-*` attributes.
    pub data_map: DataMap,
    /// The attributes that every element kind has.
    pub global_attrs: GlobalAttributes,

}

impl Section {
    /// Whether this element kind is void, that is, has no closing tag.
    pub fn is_void(&self) -> (r: bool)
        ensures
            r == false,
    {
        false
    }

    /// The declared attribute fields, in markup order.
    pub open spec fn field_list(&self) -> Seq<Field> {
        Seq::empty()
    }

    /// The declared attribute fields with their current values.
    pub fn fields(&self) -> (r: Vec<Field>)
        ensures
            r@ == self.field_list(),
    {
        let mut r: Vec<Field> = Vec::new();
        r
    }

    /// The markup of the opening tag.
    pub open spec fn opening_markup(&self) -> Seq<char> {
        opening_tag_markup("section"@, self.field_list(), self.global_attrs.field_list(), self.data_map@)
    }

    /// The markup of the closing tag.
    pub open spec fn closing_markup(&self) -> Seq<char> {
        closing_tag_markup("section"@, false)
    }

    /// Appends the opening tag.
    pub fn write_opening_tag(&self, writer: &mut String)
        ensures
            final(writer)@ == old(writer)@ + self.opening_markup(),
    {
        let fields = self.fields();
        write_opening_tag(writer, "section", &fields, &self.global_attrs, &self.data_map);
    }

    /// Appends the closing tag.
    pub fn write_closing_tag(&self, writer: &mut String)
        ensures
            final(writer)@ == old(writer)@ + self.closing_markup(),
    {
        write_closing_tag(writer, "section", false);
    }

    /// The markup of the whole element.
    pub open spec fn markup(&self) -> Seq<char> {
        self.opening_markup() + self.closing_markup()
    }

    /// The markup of the element: its opening tag, its children if it has
    /// any, then its closing tag.
    pub fn to_string(&self) -> (r: String)
        ensures
            r@ == self.markup(),
    {
        let mut r = String::new();
        self.write_opening_tag(&mut r);
        self.write_closing_tag(&mut r);
        assert(r@ =~= self.markup());
        r
    }

    /// The global attributes.
    pub fn global_attributes(&self) -> (r: &GlobalAttributes)
        ensures
            *r == self.global_attrs,
    {
        &self.global_attrs
    }

    /// The global attributes, for changing them in place.
    pub fn global_attributes_mut(&mut self) -> (r: &mut GlobalAttributes)
        ensures
            *r == old(self).global_attrs,
            *final(self) == (Section { global_attrs: *final(r), ..*old(self) }),
    {
        &mut self.global_attrs
    }
}

impl HtmlElement for Section {
    open spec fn spec_markup(&self) -> Seq<char> {
        self.markup()
    }

    open spec fn spec_tag_name(&self) -> Seq<char> {
        "section"@
    }

    open spec fn spec_children(&self) -> Seq<Node> {
        Seq::empty()
    }

    open spec fn spec_attributes(&self) -> Seq<(Seq<char>, Seq<char>)> {
        field_pairs(self.field_list()) + field_pairs(self.global_attrs.field_list())
    }

    open spec fn spec_data(&self) -> Seq<(Seq<char>, Seq<char>)> {
        self.data_map@
    }

    fn attributes(&self) -> (r: Vec<(String, String)>) {
        let fields = self.fields();
        collect_attributes(&fields, &self.global_attrs)
    }

    fn data(&self) -> (r: &DataMap) {
        &self.data_map
    }

    fn tag_name(&self) -> (r: &'static str) {
        "section"
    }

    fn to_html(&self) -> (r: String) {
        self.to_string()
    }

    fn children(&self) -> (r: Vec<Node>) {
        Vec::new()
    }
}

} // verus!
