//! Document metadata elements.

use vstd::prelude::*;
use crate::dataset::DataMap;
use crate::element::{
    closing_tag_markup, collect_attributes, opening_tag_markup, write_closing_tag, write_opening_tag, HtmlElement,
    Node,
};
use crate::global::GlobalAttributes;
use crate::markup::{field_pairs, Field, FieldValue};

verus! {

/// The HTML `<meta>` element
#[derive(Debug, Clone, PartialEq, Default)]
pub struct Meta {
    /// The `data-*` attributes.
    pub data_map: DataMap,
    /// The attributes that every element kind has.
    pub global_attrs: GlobalAttributes,
    /// Metadata name
    pub name: Option<String>,
    /// Pragma directive
    pub http_equiv: Option<String>,
    /// Value of the element
    pub content: Option<String>,
    /// Character encoding declaration
    pub charset: Option<String>,
    /// Applicable media
    pub media: Option<String>,
}

impl Meta {
    /// Whether this element kind is void, that is, has no closing tag.
    pub fn is_void(&self) -> (r: bool)
        ensures
            r == true,
    {
        true
    }

    /// The declared attribute fields, in markup order.
    pub open spec fn field_list(&self) -> Seq<Field> {
        seq![
            Field { name: "name", value: FieldValue::Text(self.name) },
            Field { name: "http-equiv", value: FieldValue::Text(self.http_equiv) },
            Field { name: "content", value: FieldValue::Text(self.content) },
            Field { name: "charset", value: FieldValue::Text(self.charset) },
            Field { name: "media", value: FieldValue::Text(self.media) },
        ]
    }

    /// The declared attribute fields with their current values.
    pub fn fields(&self) -> (r: Vec<Field>)
        ensures
            r@ == self.field_list(),
    {
        let mut r: Vec<Field> = Vec::new();
        r.push(Field::text("name", &self.name));
        r.push(Field::text("http-equiv", &self.http_equiv));
        r.push(Field::text("content", &self.content));
        r.push(Field::text("charset", &self.charset));
        r.push(Field::text("media", &self.media));
        r
    }

    /// The markup of the opening tag.
    pub open spec fn opening_markup(&self) -> Seq<char> {
        opening_tag_markup("meta"@, self.field_list(), self.global_attrs.field_list(), self.data_map@)
    }

    /// The markup of the closing tag.
    pub open spec fn closing_markup(&self) -> Seq<char> {
        closing_tag_markup("meta"@, true)
    }

    /// Appends the opening tag.
    pub fn write_opening_tag(&self, writer: &mut String)
        ensures
            final(writer)@ == old(writer)@ + self.opening_markup(),
    {
        let fields = self.fields();
        write_opening_tag(writer, "meta", &fields, &self.global_attrs, &self.data_map);
    }

    /// Appends the closing tag.
    pub fn write_closing_tag(&self, writer: &mut String)
        ensures
            final(writer)@ == old(writer)@ + self.closing_markup(),
    {
        write_closing_tag(writer, "meta", true);
    }

    /// The markup of the whole element.
    pub open spec fn markup(&self) -> Seq<char> {
        self.opening_markup() + self.closing_markup()
    }

    /// The markup of the element: its opening tag, its children if it has
    /// any, then its closing tag.
    pub fn to_string(&self) -> (r: String)
        ensures
            r@ == self.markup(),
    {
        let mut r = String::new();
        self.write_opening_tag(&mut r);
        self.write_closing_tag(&mut r);
        assert(r@ =~= self.markup());
        r
    }

    /// The global attributes.
    pub fn global_attributes(&self) -> (r: &GlobalAttributes)
        ensures
            *r == self.global_attrs,
    {
        &self.global_attrs
    }

    /// The global attributes, for changing them in place.
    pub fn global_attributes_mut(&mut self) -> (r: &mut GlobalAttributes)
        ensures
            *r == old(self).global_attrs,
            *final(self) == (Meta { global_attrs: *final(r), ..*old(self) }),
    {
        &mut self.global_attrs
    }
}

impl HtmlElement for Meta {
    open spec fn spec_markup(&self) -> Seq<char> {
        self.markup()
    }

    open spec fn spec_tag_name(&self) -> Seq<char> {
        "meta"@
    }

    open spec fn spec_children(&self) -> Seq<Node> {
        Seq::empty()
    }

    open spec fn spec_attributes(&self) -> Seq<(Seq<char>, Seq<char>)> {
        field_pairs(self.field_list()) + field_pairs(self.global_attrs.field_list())
    }

    open spec fn spec_data(&self) -> Seq<(Seq<char>, Seq<char>)> {
        self.data_map@
    }

    fn attributes(&self) -> (r: Vec<(String, String)>) {
        let fields = self.fields();
        collect_attributes(&fields, &self.global_attrs)
    }

    fn data(&self) -> (r: &DataMap) {
        &self.data_map
    }

    fn tag_name(&self) -> (r: &'static str) {
        "meta"
    }

    fn to_html(&self) -> (r: String) {
        self.to_string()
    }

    fn children(&self) -> (r: Vec<Node>) {
        Vec::new()
    }
}

/// The HTML `<style>` element
#[derive(Debug, Clone, PartialEq, Default)]
pub struct Style {
    /// The `data-*` attributes.
    pub data_map: DataMap,
    /// The attributes that every element kind has.
    pub global_attrs: GlobalAttributes,
    /// Applicable media
    pub media: Option<String>,
    /// Whether the element is potentially render-blocking
    pub blocking: Option<String>,
}

impl Style {
    /// Whether this element kind is void, that is, has no closing tag.
    pub fn is_void(&self) -> (r: bool)
        ensures
            r == false,
    {
        false
    }

    /// The declared attribute fields, in markup order.
    pub open spec fn field_list(&self) -> Seq<Field> {
        seq![
            Field { name: "media", value: FieldValue::Text(self.media) },
            Field { name: "blocking", value: FieldValue::Text(self.blocking) },
        ]
    }

    /// The declared attribute fields with their current values.
    pub fn fields(&self) -> (r: Vec<Field>)
        ensures
            r@ == self.field_list(),
    {
        let mut r: Vec<Field> = Vec::new();
        r.push(Field::text("media", &self.media));
        r.push(Field::text("blocking", &self.blocking));
        r
    }

    /// The markup of the opening tag.
    pub open spec fn opening_markup(&self) -> Seq<char> {
        opening_tag_markup("style"@, self.field_list(), self.global_attrs.field_list(), self.data_map@)
    }

    /// The markup of the closing tag.
    pub open spec fn closing_markup(&self) -> Seq<char> {
        closing_tag_markup("style"@, false)
    }

    /// Appends the opening tag.
    pub fn write_opening_tag(&self, writer: &mut String)
        ensures
            final(writer)@ == old(writer)@ + self.opening_markup(),
    {
        let fields = self.fields();
        write_opening_tag(writer, "style", &fields, &self.global_attrs, &self.data_map);
    }

    /// Appends the closing tag.
    pub fn write_closing_tag(&self, writer: &mut String)
        ensures
            final(writer)@ == old(writer)@ + self.closing_markup(),
    {
        write_closing_tag(writer, "style", false);
    }

    /// The markup of the whole element.
    pub open spec fn markup(&self) -> Seq<char> {
        self.opening_markup() + self.closing_markup()
    }

    /// The markup of the element: its opening tag, its children if it has
    /// any, then its closing tag.
    pub fn to_string(&self) -> (r: String)
        ensures
            r@ == self.markup(),
    {
        let mut r = String::new();
        self.write_opening_tag(&mut r);
        self.write_closing_tag(&mut r);
        assert(r@ =~= self.markup());
        r
    }

    /// The global attributes.
    pub fn global_attributes(&self) -> (r: &GlobalAttributes)
        ensures
            *r == self.global_attrs,
    {
        &self.global_attrs
    }

    /// The global attributes, for changing them in place.
    pub fn global_attributes_mut(&mut self) -> (r: &mut GlobalAttributes)
        ensures
            *r == old(self).global_attrs,
            *final(self) == (Style { global_attrs: *final(r), ..*old(self) }),
    {
        &mut self.global_attrs
    }
}

impl HtmlElement for Style {
    open spec fn spec_markup(&self) -> Seq<char> {
        self.markup()
    }

    open spec fn spec_tag_name(&self) -> Seq<char> {
        "style"@
    }

    open spec fn spec_children(&self) -> Seq<Node> {
        Seq::empty()
    }

    open spec fn spec_attributes(&self) -> Seq<(Seq<char>, Seq<char>)> {
        field_pairs(self.field_list()) + field_pairs(self.global_attrs.field_list())
    }

    open spec fn spec_data(&self) -> Seq<(Seq<char>, Seq<char>)> {
        self.data_map@
    }

    fn attributes(&self) -> (r: Vec<(String, String)>) {
        let fields = self.fields();
        collect_attributes(&fields, &self.global_attrs)
    }

    fn data(&self) -> (r: &DataMap) {
        &self.data_map
    }

    fn tag_name(&self) -> (r: &'static str) {
        "style"
    }

    fn to_html(&self) -> (r: String) {
        self.to_string()
    }

    fn children(&self) -> (r: Vec<Node>) {
        Vec::new()
    }
}

/// The HTML `<title>` element
#[derive(Debug, Clone, PartialEq, Default)]
pub struct Title {
    /// The `data-*` attributes.
    pub data_map: DataMap,
    /// The attributes that every element kind has.
    pub global_attrs: GlobalAttributes,

}

impl Title {
    /// Whether this element kind is void, that is, has no closing tag.
    pub fn is_void(&self) -> (r: bool)
        ensures
            r == false,
    {
        false
    }

    /// The declared attribute fields, in markup order.
    pub open spec fn field_list(&self) -> Seq<Field> {
        Seq::empty()
    }

    /// The declared attribute fields with their current values.
    pub fn fields(&self) -> (r: Vec<Field>)
        ensures
            r@ == self.field_list(),
    {
        let mut r: Vec<Field> = Vec::new();
        r
    }

    /// The markup of the opening tag.
    pub open spec fn opening_markup(&self) -> Seq<char> {
        opening_tag_markup("title"@, self.field_list(), self.global_attrs.field_list(), self.data_map@)
    }

    /// The markup of the closing tag.
    pub open spec fn closing_markup(&self) -> Seq<char> {
        closing_tag_markup("title"@, false)
    }

    /// Appends the opening tag.
    pub fn write_opening_tag(&self, writer: &mut String)
        ensures
            final(writer)@ == old(writer)@ + self.opening_markup(),
    {
        let fields = self.fields();
        write_opening_tag(writer, "title", &fields, &self.global_attrs, &self.data_map);
    }

    /// Appends the closing tag.
    pub fn write_closing_tag(&self, writer: &mut String)
        ensures
            final(writer)@ == old(writer)@ + self.closing_markup(),
    {
        write_closing_tag(writer, "title", false);
    }

    /// The markup of the whole element.
    pub open spec fn markup(&self) -> Seq<char> {
        self.opening_markup() + self.closing_markup()
    }

    /// The markup of the element: its opening tag, its children if it has
    /// any, then its closing tag.
    pub fn to_string(&self) -> (r: String)
        ensures
            r@ == self.markup(),
    {
        let mut r = String::new();
        self.write_opening_tag(&mut r);
        self.write_closing_tag(&mut r);
        assert(r@ =~= self.markup());
        r
    }

    /// The global attributes.
    pub fn global_attributes(&self) -> (r: &GlobalAttributes)
        ensures
            *r == self.global_attrs,
    {
        &self.global_attrs
    }

    /// The global attributes, for changing them in place.
    pub fn global_attributes_mut(&mut self) -> (r: &mut GlobalAttributes)
        ensures
            *r == old(self).global_attrs,
            *final(self) == (Title { global_attrs: *final(r), ..*old(self) }),
    {
        &mut self.global_attrs
    }
}

impl HtmlElement for Title {
    open spec fn spec_markup(&self) -> Seq<char> {
        self.markup()
    }

    open spec fn spec_tag_name(&self) -> Seq<char> {
        "title"@
    }

    open spec fn spec_children(&self) -> Seq<Node> {
        Seq::empty()
    }

    open spec fn spec_attributes(&self) -> Seq<(Seq<char>, Seq<char>)> {
        field_pairs(self.field_list()) + field_pairs(self.global_attrs.field_list())
    }

    open spec fn spec_data(&self) -> Seq<(Seq<char>, Seq<char>)> {
        self.data_map@
    }

    fn attributes(&self) -> (r: Vec<(String, String)>) {
        let fields = self.fields();
        collect_attributes(&fields, &self.global_attrs)
    }

    fn data(&self) -> (r: &DataMap) {
        &self.data_map
    }

    fn tag_name(&self) -> (r: &'static str) {
        "title"
    }

    fn to_html(&self) -> (r: String) {
        self.to_string()
    }

    fn children(&self) -> (r: Vec<Node>) {
        Vec::new()
    }
}

} // verus!
