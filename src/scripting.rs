//! Scripting elements.

use vstd::prelude::*;
use crate::dataset::DataMap;
use crate::element::{
    closing_tag_markup, collect_attributes, opening_tag_markup, write_closing_tag, write_opening_tag, HtmlElement,
    Node,
};
use crate::global::GlobalAttributes;
use crate::markup::{field_pairs, Field, FieldValue};

verus! {

/// The HTML `<canvas>` element
#[derive(Debug, Clone, PartialEq, Default)]
pub struct Canvas {
    /// The `data-*` attributes.
    pub data_map: DataMap,
    /// The attributes that every element kind has.
    pub global_attrs: GlobalAttributes,
    /// Horizontal dimension
    pub width: Option<i64>,
    /// Vertical dimension
    pub height: Option<i64>,
}

impl Canvas {
    /// Whether this element kind is void, that is, has no closing tag.
    pub fn is_void(&self) -> (r: bool)
        ensures
            r == false,
    {
        false
    }

    /// The declared attribute fields, in markup order.
    pub open spec fn field_list(&self) -> Seq<Field> {
        seq![
            Field { name: "width", value: FieldValue::Number(self.width) },
            Field { name: "height", value: FieldValue::Number(self.height) },
        ]
    }

    /// The declared attribute fields with their current values.
    pub fn fields(&self) -> (r: Vec<Field>)
        ensures
            r@ == self.field_list(),
    {
        let mut r: Vec<Field> = Vec::new();
        r.push(Field::number("width", self.width));
        r.push(Field::number("height", self.height));
        r
    }

    /// The markup of the opening tag.
    pub open spec fn opening_markup(&self) -> Seq<char> {
        opening_tag_markup("canvas"@, self.field_list(), self.global_attrs.field_list(), self.data_map@)
    }

    /// The markup of the closing tag.
    pub open spec fn closing_markup(&self) -> Seq<char> {
        closing_tag_markup("canvas"@, false)
    }

    /// Appends the opening tag.
    pub fn write_opening_tag(&self, writer: &mut String)
        ensures
            final(writer)@ == old(writer)@ + self.opening_markup(),
    {
        let fields = self.fields();
        write_opening_tag(writer, "canvas", &fields, &self.global_attrs, &self.data_map);
    }

    /// Appends the closing tag.
    pub fn write_closing_tag(&self, writer: &mut String)
        ensures
            final(writer)@ == old(writer)@ + self.closing_markup(),
    {
        write_closing_tag(writer, "canvas", false);
    }

    /// The markup of the whole element.
    pub open spec fn markup(&self) -> Seq<char> {
        self.opening_markup() + self.closing_markup()
    }

    /// The markup of the element: its opening tag, its children if it has
    /// any, then its closing tag.
    pub fn to_string(&self) -> (r: String)
        ensures
            r@ == self.markup(),
    {
        let mut r = String::new();
        self.write_opening_tag(&mut r);
        self.write_closing_tag(&mut r);
        assert(r@ =~= self.markup());
        r
    }

    /// The global attributes.
    pub fn global_attributes(&self) -> (r: &GlobalAttributes)
        ensures
            *r == self.global_attrs,
    {
        &self.global_attrs
    }

    /// The global attributes, for changing them in place.
    pub fn global_attributes_mut(&mut self) -> (r: &mut GlobalAttributes)
        ensures
            *r == old(self).global_attrs,
            *final(self) == (Canvas { global_attrs: *final(r), ..*old(self) }),
    {
        &mut self.global_attrs
    }
}

impl HtmlElement for Canvas {
    open spec fn spec_markup(&self) -> Seq<char> {
        self.markup()
    }

    open spec fn spec_tag_name(&self) -> Seq<char> {
        "canvas"@
    }

    open spec fn spec_children(&self) -> Seq<Node> {
        Seq::empty()
    }

    open spec fn spec_attributes(&self) -> Seq<(Seq<char>, Seq<char>)> {
        field_pairs(self.field_list()) + field_pairs(self.global_attrs.field_list())
    }

    open spec fn spec_data(&self) -> Seq<(Seq<char>, Seq<char>)> {
        self.data_map@
    }

    fn attributes(&self) -> (r: Vec<(String, String)>) {
        let fields = self.fields();
        collect_attributes(&fields, &self.global_attrs)
    }

    fn data(&self) -> (r: &DataMap) {
        &self.data_map
    }

    fn tag_name(&self) -> (r: &'static str) {
        "canvas"
    }

    fn to_html(&self) -> (r: String) {
        self.to_string()
    }

    fn children(&self) -> (r: Vec<Node>) {
        Vec::new()
    }
}

} // verus!
