//! Form controls and their grouping elements.
//!
//! `Option` in this module names the `<option>` element, so std's option
//! type is written out in full.

use vstd::prelude::*;
use crate::dataset::{set_entry, DataMap};
use crate::element::{
    closing_tag_markup, collect_attributes, nodes_markup, opening_tag_markup, write_closing_tag, write_nodes,
    write_opening_tag, HtmlElement, Node,
};
use crate::global::GlobalAttributes;
use crate::markup::{field_pairs, Field, FieldValue};

verus! {

/// The HTML `<datalist>` element
#[derive(Debug, Clone, PartialEq, Default)]
pub struct DataList {
    /// The `data-*` attributes.
    pub data_map: DataMap,
    /// The attributes that every element kind has.
    pub global_attrs: GlobalAttributes,

}

impl DataList {
    /// Whether this element kind is void, that is, has no closing tag.
    pub fn is_void(&self) -> (r: bool)
        ensures
            r == false,
    {
        false
    }

    /// The declared attribute fields, in markup order.
    pub open spec fn field_list(&self) -> Seq<Field> {
        Seq::empty()
    }

    /// The declared attribute fields with their current values.
    pub fn fields(&self) -> (r: Vec<Field>)
        ensures
            r@ == self.field_list(),
    {
        let mut r: Vec<Field> = Vec::new();
        r
    }

    /// The markup of the opening tag.
    pub open spec fn opening_markup(&self) -> Seq<char> {
        opening_tag_markup("datalist"@, self.field_list(), self.global_attrs.field_list(), self.data_map@)
    }

    /// The markup of the closing tag.
    pub open spec fn closing_markup(&self) -> Seq<char> {
        closing_tag_markup("datalist"@, false)
    }

    /// Appends the opening tag.
    pub fn write_opening_tag(&self, writer: &mut String)
        ensures
            final(writer)@ == old(writer)@ + self.opening_markup(),
    {
        let fields = self.fields();
        write_opening_tag(writer, "datalist", &fields, &self.global_attrs, &self.data_map);
    }

    /// Appends the closing tag.
    pub fn write_closing_tag(&self, writer: &mut String)
        ensures
            final(writer)@ == old(writer)@ + self.closing_markup(),
    {
        write_closing_tag(writer, "datalist", false);
    }

    /// The markup of the whole element.
    pub open spec fn markup(&self) -> Seq<char> {
        self.opening_markup() + self.closing_markup()
    }

    /// The markup of the element: its opening tag, its children if it has
    /// any, then its closing tag.
    pub fn to_string(&self) -> (r: String)
        ensures
            r@ == self.markup(),
    {
        let mut r = String::new();
        self.write_opening_tag(&mut r);
        self.write_closing_tag(&mut r);
        assert(r@ =~= self.markup());
        r
    }

    /// The global attributes.
    pub fn global_attributes(&self) -> (r: &GlobalAttributes)
        ensures
            *r == self.global_attrs,
    {
        &self.global_attrs
    }

    /// The global attributes, for changing them in place.
    pub fn global_attributes_mut(&mut self) -> (r: &mut GlobalAttributes)
        ensures
            *r == old(self).global_attrs,
            *final(self) == (DataList { global_attrs: *final(r), ..*old(self) }),
    {
        &mut self.global_attrs
    }
}

impl HtmlElement for DataList {
    open spec fn spec_markup(&self) -> Seq<char> {
        self.markup()
    }

    open spec fn spec_tag_name(&self) -> Seq<char> {
        "datalist"@
    }

    open spec fn spec_children(&self) -> Seq<Node> {
        Seq::empty()
    }

    open spec fn spec_attributes(&self) -> Seq<(Seq<char>, Seq<char>)> {
        field_pairs(self.field_list()) + field_pairs(self.global_attrs.field_list())
    }

    open spec fn spec_data(&self) -> Seq<(Seq<char>, Seq<char>)> {
        self.data_map@
    }

    fn attributes(&self) -> (r: Vec<(String, String)>) {
        let fields = self.fields();
        collect_attributes(&fields, &self.global_attrs)
    }

    fn data(&self) -> (r: &DataMap) {
        &self.data_map
    }

    fn tag_name(&self) -> (r: &'static str) {
        "datalist"
    }

    fn to_html(&self) -> (r: String) {
        self.to_string()
    }

    fn children(&self) -> (r: Vec<Node>) {
        Vec::new()
    }
}

/// The HTML `<fieldset>` element
#[derive(Debug, Clone, PartialEq, Default)]
pub struct Fieldset {
    /// The `data-*` attributes.
    pub data_map: DataMap,
    /// The attributes that every element kind has.
    pub global_attrs: GlobalAttributes,
    /// Whether the descendant form controls, except any inside legend, are disabled
    pub disabled: bool,
    /// Associates the element with a form element
    pub form: std::option::Option<String>,
    /// Name of the element to use in the form.elements API.
    pub name: std::option::Option<String>,
}

impl Fieldset {
    /// Whether this element kind is void, that is, has no closing tag.
    pub fn is_void(&self) -> (r: bool)
        ensures
            r == false,
    {
        false
    }

    /// The declared attribute fields, in markup order.
    pub open spec fn field_list(&self) -> Seq<Field> {
        seq![
            Field { name: "disabled", value: FieldValue::Flag(self.disabled) },
            Field { name: "form", value: FieldValue::Text(self.form) },
            Field { name: "name", value: FieldValue::Text(self.name) },
        ]
    }

    /// The declared attribute fields with their current values.
    pub fn fields(&self) -> (r: Vec<Field>)
        ensures
            r@ == self.field_list(),
    {
        let mut r: Vec<Field> = Vec::new();
        r.push(Field::flag("disabled", self.disabled));
        r.push(Field::text("form", &self.form));
        r.push(Field::text("name", &self.name));
        r
    }

    /// The markup of the opening tag.
    pub open spec fn opening_markup(&self) -> Seq<char> {
        opening_tag_markup("fieldset"@, self.field_list(), self.global_attrs.field_list(), self.data_map@)
    }

    /// The markup of the closing tag.
    pub open spec fn closing_markup(&self) -> Seq<char> {
        closing_tag_markup("fieldset"@, false)
    }

    /// Appends the opening tag.
    pub fn write_opening_tag(&self, writer: &mut String)
        ensures
            final(writer)@ == old(writer)@ + self.opening_markup(),
    {
        let fields = self.fields();
        write_opening_tag(writer, "fieldset", &fields, &self.global_attrs, &self.data_map);
    }

    /// Appends the closing tag.
    pub fn write_closing_tag(&self, writer: &mut String)
        ensures
            final(writer)@ == old(writer)@ + self.closing_markup(),
    {
        write_closing_tag(writer, "fieldset", false);
    }

    /// The markup of the whole element.
    pub open spec fn markup(&self) -> Seq<char> {
        self.opening_markup() + self.closing_markup()
    }

    /// The markup of the element: its opening tag, its children if it has
    /// any, then its closing tag.
    pub fn to_string(&self) -> (r: String)
        ensures
            r@ == self.markup(),
    {
        let mut r = String::new();
        self.write_opening_tag(&mut r);
        self.write_closing_tag(&mut r);
        assert(r@ =~= self.markup());
        r
    }

    /// The global attributes.
    pub fn global_attributes(&self) -> (r: &GlobalAttributes)
        ensures
            *r == self.global_attrs,
    {
        &self.global_attrs
    }

    /// The global attributes, for changing them in place.
    pub fn global_attributes_mut(&mut self) -> (r: &mut GlobalAttributes)
        ensures
            *r == old(self).global_attrs,
            *final(self) == (Fieldset { global_attrs: *final(r), ..*old(self) }),
    {
        &mut self.global_attrs
    }
}

impl HtmlElement for Fieldset {
    open spec fn spec_markup(&self) -> Seq<char> {
        self.markup()
    }

    open spec fn spec_tag_name(&self) -> Seq<char> {
        "fieldset"@
    }

    open spec fn spec_children(&self) -> Seq<Node> {
        Seq::empty()
    }

    open spec fn spec_attributes(&self) -> Seq<(Seq<char>, Seq<char>)> {
        field_pairs(self.field_list()) + field_pairs(self.global_attrs.field_list())
    }

    open spec fn spec_data(&self) -> Seq<(Seq<char>, Seq<char>)> {
        self.data_map@
    }

    fn attributes(&self) -> (r: Vec<(String, String)>) {
        let fields = self.fields();
        collect_attributes(&fields, &self.global_attrs)
    }

    fn data(&self) -> (r: &DataMap) {
        &self.data_map
    }

    fn tag_name(&self) -> (r: &'static str) {
        "fieldset"
    }

    fn to_html(&self) -> (r: String) {
        self.to_string()
    }

    fn children(&self) -> (r: Vec<Node>) {
        Vec::new()
    }
}

/// The HTML `<label>` element
#[derive(Debug, Clone, PartialEq, Default)]
pub struct Label {
    /// The `data-*` attributes.
    pub data_map: DataMap,
    /// The attributes that every element kind has.
    pub global_attrs: GlobalAttributes,
    /// Associate the label with form control
    pub for_: std::option::Option<String>,
}

impl Label {
    /// Whether this element kind is void, that is, has no closing tag.
    pub fn is_void(&self) -> (r: bool)
        ensures
            r == false,
    {
        false
    }

    /// The declared attribute fields, in markup order.
    pub open spec fn field_list(&self) -> Seq<Field> {
        seq![
            Field { name: "for", value: FieldValue::Text(self.for_) },
        ]
    }

    /// The declared attribute fields with their current values.
    pub fn fields(&self) -> (r: Vec<Field>)
        ensures
            r@ == self.field_list(),
    {
        let mut r: Vec<Field> = Vec::new();
        r.push(Field::text("for", &self.for_));
        r
    }

    /// The markup of the opening tag.
    pub open spec fn opening_markup(&self) -> Seq<char> {
        opening_tag_markup("label"@, self.field_list(), self.global_attrs.field_list(), self.data_map@)
    }

    /// The markup of the closing tag.
    pub open spec fn closing_markup(&self) -> Seq<char> {
        closing_tag_markup("label"@, false)
    }

    /// Appends the opening tag.
    pub fn write_opening_tag(&self, writer: &mut String)
        ensures
            final(writer)@ == old(writer)@ + self.opening_markup(),
    {
        let fields = self.fields();
        write_opening_tag(writer, "label", &fields, &self.global_attrs, &self.data_map);
    }

    /// Appends the closing tag.
    pub fn write_closing_tag(&self, writer: &mut String)
        ensures
            final(writer)@ == old(writer)@ + self.closing_markup(),
    {
        write_closing_tag(writer, "label", false);
    }

    /// The markup of the whole element.
    pub open spec fn markup(&self) -> Seq<char> {
        self.opening_markup() + self.closing_markup()
    }

    /// The markup of the element: its opening tag, its children if it has
    /// any, then its closing tag.
    pub fn to_string(&self) -> (r: String)
        ensures
            r@ == self.markup(),
    {
        let mut r = String::new();
        self.write_opening_tag(&mut r);
        self.write_closing_tag(&mut r);
        assert(r@ =~= self.markup());
        r
    }

    /// The global attributes.
    pub fn global_attributes(&self) -> (r: &GlobalAttributes)
        ensures
            *r == self.global_attrs,
    {
        &self.global_attrs
    }

    /// The global attributes, for changing them in place.
    pub fn global_attributes_mut(&mut self) -> (r: &mut GlobalAttributes)
        ensures
            *r == old(self).global_attrs,
            *final(self) == (Label { global_attrs: *final(r), ..*old(self) }),
    {
        &mut self.global_attrs
    }
}

impl HtmlElement for Label {
    open spec fn spec_markup(&self) -> Seq<char> {
        self.markup()
    }

    open spec fn spec_tag_name(&self) -> Seq<char> {
        "label"@
    }

    open spec fn spec_children(&self) -> Seq<Node> {
        Seq::empty()
    }

    open spec fn spec_attributes(&self) -> Seq<(Seq<char>, Seq<char>)> {
        field_pairs(self.field_list()) + field_pairs(self.global_attrs.field_list())
    }

    open spec fn spec_data(&self) -> Seq<(Seq<char>, Seq<char>)> {
        self.data_map@
    }

    fn attributes(&self) -> (r: Vec<(String, String)>) {
        let fields = self.fields();
        collect_attributes(&fields, &self.global_attrs)
    }

    fn data(&self) -> (r: &DataMap) {
        &self.data_map
    }

    fn tag_name(&self) -> (r: &'static str) {
        "label"
    }

    fn to_html(&self) -> (r: String) {
        self.to_string()
    }

    fn children(&self) -> (r: Vec<Node>) {
        Vec::new()
    }
}

/// The HTML `<optgroup>` element
#[derive(Debug, Clone, PartialEq, Default)]
pub struct OptionGroup {
    /// The `data-*` attributes.
    pub data_map: DataMap,
    /// The attributes that every element kind has.
    pub global_attrs: GlobalAttributes,
    /// Whether the form control is disabled
    pub disabled: bool,
    /// User-visible label
    pub label: std::option::Option<String>,
}

impl OptionGroup {
    /// Whether this element kind is void, that is, has no closing tag.
    pub fn is_void(&self) -> (r: bool)
        ensures
            r == false,
    {
        false
    }

    /// The declared attribute fields, in markup order.
    pub open spec fn field_list(&self) -> Seq<Field> {
        seq![
            Field { name: "disabled", value: FieldValue::Flag(self.disabled) },
            Field { name: "label", value: FieldValue::Text(self.label) },
        ]
    }

    /// The declared attribute fields with their current values.
    pub fn fields(&self) -> (r: Vec<Field>)
        ensures
            r@ == self.field_list(),
    {
        let mut r: Vec<Field> = Vec::new();
        r.push(Field::flag("disabled", self.disabled));
        r.push(Field::text("label", &self.label));
        r
    }

    /// The markup of the opening tag.
    pub open spec fn opening_markup(&self) -> Seq<char> {
        opening_tag_markup("optgroup"@, self.field_list(), self.global_attrs.field_list(), self.data_map@)
    }

    /// The markup of the closing tag.
    pub open spec fn closing_markup(&self) -> Seq<char> {
        closing_tag_markup("optgroup"@, false)
    }

    /// Appends the opening tag.
    pub fn write_opening_tag(&self, writer: &mut String)
        ensures
            final(writer)@ == old(writer)@ + self.opening_markup(),
    {
        let fields = self.fields();
        write_opening_tag(writer, "optgroup", &fields, &self.global_attrs, &self.data_map);
    }

    /// Appends the closing tag.
    pub fn write_closing_tag(&self, writer: &mut String)
        ensures
            final(writer)@ == old(writer)@ + self.closing_markup(),
    {
        write_closing_tag(writer, "optgroup", false);
    }

    /// The markup of the whole element.
    pub open spec fn markup(&self) -> Seq<char> {
        self.opening_markup() + self.closing_markup()
    }

    /// The markup of the element: its opening tag, its children if it has
    /// any, then its closing tag.
    pub fn to_string(&self) -> (r: String)
        ensures
            r@ == self.markup(),
    {
        let mut r = String::new();
        self.write_opening_tag(&mut r);
        self.write_closing_tag(&mut r);
        assert(r@ =~= self.markup());
        r
    }

    /// The global attributes.
    pub fn global_attributes(&self) -> (r: &GlobalAttributes)
        ensures
            *r == self.global_attrs,
    {
        &self.global_attrs
    }

    /// The global attributes, for changing them in place.
    pub fn global_attributes_mut(&mut self) -> (r: &mut GlobalAttributes)
        ensures
            *r == old(self).global_attrs,
            *final(self) == (OptionGroup { global_attrs: *final(r), ..*old(self) }),
    {
        &mut self.global_attrs
    }
}

impl HtmlElement for OptionGroup {
    open spec fn spec_markup(&self) -> Seq<char> {
        self.markup()
    }

    open spec fn spec_tag_name(&self) -> Seq<char> {
        "optgroup"@
    }

    open spec fn spec_children(&self) -> Seq<Node> {
        Seq::empty()
    }

    open spec fn spec_attributes(&self) -> Seq<(Seq<char>, Seq<char>)> {
        field_pairs(self.field_list()) + field_pairs(self.global_attrs.field_list())
    }

    open spec fn spec_data(&self) -> Seq<(Seq<char>, Seq<char>)> {
        self.data_map@
    }

    fn attributes(&self) -> (r: Vec<(String, String)>) {
        let fields = self.fields();
        collect_attributes(&fields, &self.global_attrs)
    }

    fn data(&self) -> (r: &DataMap) {
        &self.data_map
    }

    fn tag_name(&self) -> (r: &'static str) {
        "optgroup"
    }

    fn to_html(&self) -> (r: String) {
        self.to_string()
    }

    fn children(&self) -> (r: Vec<Node>) {
        Vec::new()
    }
}

/// The HTML `<option>` element
#[derive(Debug, Clone, PartialEq, Default)]
pub struct Option {
    /// The `data-*` attributes.
    pub data_map: DataMap,
    /// The attributes that every element kind has.
    pub global_attrs: GlobalAttributes,
    /// Whether the form control is disabled
    pub disabled: bool,
    /// User-visible label
    pub label: std::option::Option<String>,
    /// Whether the option is selected by default
    pub selected: bool,
    /// Value to be used for form submission
    pub value: std::option::Option<String>,
    /// Describes the role(s) the current element plays in the context of the document.
    pub role: std::option::Option<String>,
    /// Indicates whether assistive technologies will present all, or only parts of, the changed region based on the change notifications defined by the aria-relevant attribute.
    pub aria_atomic: bool,
    /// Defines a string value that labels the current element, which is intended to be converted into Braille. See related aria-label.
    pub aria_braille_label: std::option::Option<String>,
    /// Defines a human-readable, author-localized abbreviated description for the role of an element, which is intended to be converted into Braille. See related aria-roledescription.
    pub aria_braille_role_description: std::option::Option<String>,
    /// Indicates an element is being modified and that assistive technologies could wait until the modifications are complete before exposing them to the user.
    pub aria_busy: bool,
    /// Indicates the current "checked" state of checkboxes, radio buttons, and other widgets. See related aria-pressed and aria-selected.
    pub aria_checked: std::option::Option<String>,
    /// Identifies the element (or elements) whose contents or presence are controlled by the current element. See related aria-owns.
    pub aria_controls_elements: std::option::Option<String>,
    /// Indicates the element that represents the current item within a container or set of related elements.
    pub aria_current: std::option::Option<String>,
    /// Identifies the element (or elements) that describes the object. See related aria-labelledby and aria-description.
    pub aria_described_by_elements: std::option::Option<String>,
    /// Defines a string value that describes or annotates the current element. See related aria-describedby.
    pub aria_description: std::option::Option<String>,
    /// Identifies the element (or elements) that provide additional information related to the object. See related aria-describedby.
    pub aria_details_elements: std::option::Option<String>,
    /// Indicates that the element is perceivable but disabled, so it is not editable or otherwise operable. See related aria-hidden and aria-readonly.
    pub aria_disabled: bool,
    /// [Deprecated in ARIA 1.1] Indicates what functions can be performed when a dragged object is released on the drop target.
    pub aria_drop_effect: std::option::Option<String>,
    /// Identifies the element (or elements) that provides an error message for an object. See related aria-invalid and aria-describedby.
    pub aria_error_message_elements: std::option::Option<String>,
    /// Identifies the next element (or elements) in an alternate reading order of content which, at the user's discretion, allows assistive technology to override the general default of reading in document source order.
    pub aria_flow_to_elements: std::option::Option<String>,
    /// [Deprecated in ARIA 1.1] Indicates an element's "grabbed" state in a drag-and-drop operation.
    pub aria_grabbed: bool,
    /// Indicates the availability and type of interactive popup element, such as menu or dialog, that can be triggered by an element.
    pub aria_has_popup: std::option::Option<String>,
    /// Indicates whether the element is exposed to an accessibility API. See related aria-disabled.
    pub aria_hidden: bool,
    /// Indicates the entered value does not conform to the format expected by the application. See related aria-errormessage.
    pub aria_invalid: std::option::Option<String>,
    /// Defines keyboard shortcuts that an author has implemented to activate or give focus to an element.
    pub aria_key_shortcuts: std::option::Option<String>,
    /// Defines a string value that labels the current element. See related aria-labelledby.
    pub aria_label: std::option::Option<String>,
    /// Identifies the element (or elements) that labels the current element. See related aria-label and aria-describedby.
    pub aria_labelled_by_elements: std::option::Option<String>,
    /// Indicates that an element will be updated, and describes the types of updates the user agents, assistive technologies, and user can expect from the live region.
    pub aria_live: std::option::Option<String>,
    /// Identifies an element (or elements) in order to define a visual, functional, or contextual parent/child relationship between DOM elements where the DOM hierarchy cannot be used to represent the relationship. See related aria-controls.
    pub aria_owns_elements: std::option::Option<String>,
    /// Defines an element's number or position in the current set of listitems or treeitems. Not required if all elements in the set are present in the DOM. See related aria-setsize.
    pub aria_pos_in_set: std::option::Option<i64>,
    /// Indicates what notifications the user agent will trigger when the accessibility tree within a live region is modified. See related aria-atomic.
    pub aria_relevant: std::option::Option<String>,
    /// Defines a human-readable, author-localized description for the role of an element.
    pub aria_role_description: std::option::Option<String>,
    /// Indicates the current "selected" state of various widgets. See related aria-checked and aria-pressed.
    pub aria_selected: bool,
    /// Defines the number of items in the current set of listitems or treeitems. Not required if all elements in the set are present in the DOM. See related aria-posinset.
    pub aria_set_size: std::option::Option<i64>,
}

impl Option {
    /// Whether this element kind is void, that is, has no closing tag.
    pub fn is_void(&self) -> (r: bool)
        ensures
            r == false,
    {
        false
    }

    /// The declared attribute fields, in markup order.
    pub open spec fn field_list(&self) -> Seq<Field> {
        seq![
            Field { name: "disabled", value: FieldValue::Flag(self.disabled) },
            Field { name: "label", value: FieldValue::Text(self.label) },
            Field { name: "selected", value: FieldValue::Flag(self.selected) },
            Field { name: "value", value: FieldValue::Text(self.value) },
            Field { name: "role", value: FieldValue::Text(self.role) },
            Field { name: "aria-atomic", value: FieldValue::Flag(self.aria_atomic) },
            Field { name: "aria-braillelabel", value: FieldValue::Text(self.aria_braille_label) },
            Field { name: "aria-brailleroledescription", value: FieldValue::Text(self.aria_braille_role_description) },
            Field { name: "aria-busy", value: FieldValue::Flag(self.aria_busy) },
            Field { name: "aria-checked", value: FieldValue::Text(self.aria_checked) },
            Field { name: "aria-controls", value: FieldValue::Text(self.aria_controls_elements) },
            Field { name: "aria-current", value: FieldValue::Text(self.aria_current) },
            Field { name: "aria-describedby", value: FieldValue::Text(self.aria_described_by_elements) },
            Field { name: "aria-description", value: FieldValue::Text(self.aria_description) },
            Field { name: "aria-details", value: FieldValue::Text(self.aria_details_elements) },
            Field { name: "aria-disabled", value: FieldValue::Flag(self.aria_disabled) },
            Field { name: "aria-dropeffect", value: FieldValue::Text(self.aria_drop_effect) },
            Field { name: "aria-errormessage", value: FieldValue::Text(self.aria_error_message_elements) },
            Field { name: "aria-flowto", value: FieldValue::Text(self.aria_flow_to_elements) },
            Field { name: "aria-grabbed", value: FieldValue::Flag(self.aria_grabbed) },
            Field { name: "aria-haspopup", value: FieldValue::Text(self.aria_has_popup) },
            Field { name: "aria-hidden", value: FieldValue::Flag(self.aria_hidden) },
            Field { name: "aria-invalid", value: FieldValue::Text(self.aria_invalid) },
            Field { name: "aria-keyshortcuts", value: FieldValue::Text(self.aria_key_shortcuts) },
            Field { name: "aria-label", value: FieldValue::Text(self.aria_label) },
            Field { name: "aria-labelledby", value: FieldValue::Text(self.aria_labelled_by_elements) },
            Field { name: "aria-live", value: FieldValue::Text(self.aria_live) },
            Field { name: "aria-owns", value: FieldValue::Text(self.aria_owns_elements) },
            Field { name: "aria-posinset", value: FieldValue::Number(self.aria_pos_in_set) },
            Field { name: "aria-relevant", value: FieldValue::Text(self.aria_relevant) },
            Field { name: "aria-roledescription", value: FieldValue::Text(self.aria_role_description) },
            Field { name: "aria-selected", value: FieldValue::Flag(self.aria_selected) },
            Field { name: "aria-setsize", value: FieldValue::Number(self.aria_set_size) },
        ]
    }

    /// The declared attribute fields with their current values.
    #[verifier::rlimit(40)]
    pub fn fields(&self) -> (r: Vec<Field>)
        ensures
            r@ == self.field_list(),
    {
        let mut r: Vec<Field> = Vec::new();
        r.push(Field::flag("disabled", self.disabled));
        r.push(Field::text("label", &self.label));
        r.push(Field::flag("selected", self.selected));
        r.push(Field::text("value", &self.value));
        r.push(Field::text("role", &self.role));
        r.push(Field::flag("aria-atomic", self.aria_atomic));
        r.push(Field::text("aria-braillelabel", &self.aria_braille_label));
        r.push(Field::text("aria-brailleroledescription", &self.aria_braille_role_description));
        r.push(Field::flag("aria-busy", self.aria_busy));
        r.push(Field::text("aria-checked", &self.aria_checked));
        r.push(Field::text("aria-controls", &self.aria_controls_elements));
        r.push(Field::text("aria-current", &self.aria_current));
        r.push(Field::text("aria-describedby", &self.aria_described_by_elements));
        r.push(Field::text("aria-description", &self.aria_description));
        r.push(Field::text("aria-details", &self.aria_details_elements));
        r.push(Field::flag("aria-disabled", self.aria_disabled));
        r.push(Field::text("aria-dropeffect", &self.aria_drop_effect));
        r.push(Field::text("aria-errormessage", &self.aria_error_message_elements));
        r.push(Field::text("aria-flowto", &self.aria_flow_to_elements));
        r.push(Field::flag("aria-grabbed", self.aria_grabbed));
        r.push(Field::text("aria-haspopup", &self.aria_has_popup));
        r.push(Field::flag("aria-hidden", self.aria_hidden));
        r.push(Field::text("aria-invalid", &self.aria_invalid));
        r.push(Field::text("aria-keyshortcuts", &self.aria_key_shortcuts));
        r.push(Field::text("aria-label", &self.aria_label));
        r.push(Field::text("aria-labelledby", &self.aria_labelled_by_elements));
        r.push(Field::text("aria-live", &self.aria_live));
        r.push(Field::text("aria-owns", &self.aria_owns_elements));
        r.push(Field::number("aria-posinset", self.aria_pos_in_set));
        r.push(Field::text("aria-relevant", &self.aria_relevant));
        r.push(Field::text("aria-roledescription", &self.aria_role_description));
        r.push(Field::flag("aria-selected", self.aria_selected));
        r.push(Field::number("aria-setsize", self.aria_set_size));
        r
    }

    /// The markup of the opening tag.
    pub open spec fn opening_markup(&self) -> Seq<char> {
        opening_tag_markup("option"@, self.field_list(), self.global_attrs.field_list(), self.data_map@)
    }

    /// The markup of the closing tag.
    pub open spec fn closing_markup(&self) -> Seq<char> {
        closing_tag_markup("option"@, false)
    }

    /// Appends the opening tag.
    pub fn write_opening_tag(&self, writer: &mut String)
        ensures
            final(writer)@ == old(writer)@ + self.opening_markup(),
    {
        let fields = self.fields();
        write_opening_tag(writer, "option", &fields, &self.global_attrs, &self.data_map);
    }

    /// Appends the closing tag.
    pub fn write_closing_tag(&self, writer: &mut String)
        ensures
            final(writer)@ == old(writer)@ + self.closing_markup(),
    {
        write_closing_tag(writer, "option", false);
    }

    /// The markup of the whole element.
    pub open spec fn markup(&self) -> Seq<char> {
        self.opening_markup() + self.closing_markup()
    }

    /// The markup of the element: its opening tag, its children if it has
    /// any, then its closing tag.
    pub fn to_string(&self) -> (r: String)
        ensures
            r@ == self.markup(),
    {
        let mut r = String::new();
        self.write_opening_tag(&mut r);
        self.write_closing_tag(&mut r);
        assert(r@ =~= self.markup());
        r
    }

    /// The global attributes.
    pub fn global_attributes(&self) -> (r: &GlobalAttributes)
        ensures
            *r == self.global_attrs,
    {
        &self.global_attrs
    }

    /// The global attributes, for changing them in place.
    pub fn global_attributes_mut(&mut self) -> (r: &mut GlobalAttributes)
        ensures
            *r == old(self).global_attrs,
            *final(self) == (Option { global_attrs: *final(r), ..*old(self) }),
    {
        &mut self.global_attrs
    }
}

impl HtmlElement for Option {
    open spec fn spec_markup(&self) -> Seq<char> {
        self.markup()
    }

    open spec fn spec_tag_name(&self) -> Seq<char> {
        "option"@
    }

    open spec fn spec_children(&self) -> Seq<Node> {
        Seq::empty()
    }

    open spec fn spec_attributes(&self) -> Seq<(Seq<char>, Seq<char>)> {
        field_pairs(self.field_list()) + field_pairs(self.global_attrs.field_list())
    }

    open spec fn spec_data(&self) -> Seq<(Seq<char>, Seq<char>)> {
        self.data_map@
    }

    fn attributes(&self) -> (r: Vec<(String, String)>) {
        let fields = self.fields();
        collect_attributes(&fields, &self.global_attrs)
    }

    fn data(&self) -> (r: &DataMap) {
        &self.data_map
    }

    fn tag_name(&self) -> (r: &'static str) {
        "option"
    }

    fn to_html(&self) -> (r: String) {
        self.to_string()
    }

    fn children(&self) -> (r: Vec<Node>) {
        Vec::new()
    }
}

/// The HTML `<output>` element
#[derive(Debug, Clone, PartialEq, Default)]
pub struct Output {
    /// The `data-*` attributes.
    pub data_map: DataMap,
    /// The attributes that every element kind has.
    pub global_attrs: GlobalAttributes,
    /// Specifies controls from which the output was calculated
    pub for_: std::option::Option<String>,
    /// Associates the element with a form element
    pub form: std::option::Option<String>,
    /// Name of the element to use in the form.elements API.
    pub name: std::option::Option<String>,
}

impl Output {
    /// Whether this element kind is void, that is, has no closing tag.
    pub fn is_void(&self) -> (r: bool)
        ensures
            r == false,
    {
        false
    }

    /// The declared attribute fields, in markup order.
    pub open spec fn field_list(&self) -> Seq<Field> {
        seq![
            Field { name: "for", value: FieldValue::Text(self.for_) },
            Field { name: "form", value: FieldValue::Text(self.form) },
            Field { name: "name", value: FieldValue::Text(self.name) },
        ]
    }

    /// The declared attribute fields with their current values.
    pub fn fields(&self) -> (r: Vec<Field>)
        ensures
            r@ == self.field_list(),
    {
        let mut r: Vec<Field> = Vec::new();
        r.push(Field::text("for", &self.for_));
        r.push(Field::text("form", &self.form));
        r.push(Field::text("name", &self.name));
        r
    }

    /// The markup of the opening tag.
    pub open spec fn opening_markup(&self) -> Seq<char> {
        opening_tag_markup("output"@, self.field_list(), self.global_attrs.field_list(), self.data_map@)
    }

    /// The markup of the closing tag.
    pub open spec fn closing_markup(&self) -> Seq<char> {
        closing_tag_markup("output"@, false)
    }

    /// Appends the opening tag.
    pub fn write_opening_tag(&self, writer: &mut String)
        ensures
            final(writer)@ == old(writer)@ + self.opening_markup(),
    {
        let fields = self.fields();
        write_opening_tag(writer, "output", &fields, &self.global_attrs, &self.data_map);
    }

    /// Appends the closing tag.
    pub fn write_closing_tag(&self, writer: &mut String)
        ensures
            final(writer)@ == old(writer)@ + self.closing_markup(),
    {
        write_closing_tag(writer, "output", false);
    }

    /// The markup of the whole element.
    pub open spec fn markup(&self) -> Seq<char> {
        self.opening_markup() + self.closing_markup()
    }

    /// The markup of the element: its opening tag, its children if it has
    /// any, then its closing tag.
    pub fn to_string(&self) -> (r: String)
        ensures
            r@ == self.markup(),
    {
        let mut r = String::new();
        self.write_opening_tag(&mut r);
        self.write_closing_tag(&mut r);
        assert(r@ =~= self.markup());
        r
    }

    /// The global attributes.
    pub fn global_attributes(&self) -> (r: &GlobalAttributes)
        ensures
            *r == self.global_attrs,
    {
        &self.global_attrs
    }

    /// The global attributes, for changing them in place.
    pub fn global_attributes_mut(&mut self) -> (r: &mut GlobalAttributes)
        ensures
            *r == old(self).global_attrs,
            *final(self) == (Output { global_attrs: *final(r), ..*old(self) }),
    {
        &mut self.global_attrs
    }
}

impl HtmlElement for Output {
    open spec fn spec_markup(&self) -> Seq<char> {
        self.markup()
    }

    open spec fn spec_tag_name(&self) -> Seq<char> {
        "output"@
    }

    open spec fn spec_children(&self) -> Seq<Node> {
        Seq::empty()
    }

    open spec fn spec_attributes(&self) -> Seq<(Seq<char>, Seq<char>)> {
        field_pairs(self.field_list()) + field_pairs(self.global_attrs.field_list())
    }

    open spec fn spec_data(&self) -> Seq<(Seq<char>, Seq<char>)> {
        self.data_map@
    }

    fn attributes(&self) -> (r: Vec<(String, String)>) {
        let fields = self.fields();
        collect_attributes(&fields, &self.global_attrs)
    }

    fn data(&self) -> (r: &DataMap) {
        &self.data_map
    }

    fn tag_name(&self) -> (r: &'static str) {
        "output"
    }

    fn to_html(&self) -> (r: String) {
        self.to_string()
    }

    fn children(&self) -> (r: Vec<Node>) {
        Vec::new()
    }
}

/// The HTML `<select>` element
#[derive(Debug, Clone, PartialEq, Default)]
pub struct Select {
    /// The `data-*` attributes.
    pub data_map: DataMap,
    /// The attributes that every element kind has.
    pub global_attrs: GlobalAttributes,
    /// Hint for form autofill feature
    pub autocomplete: std::option::Option<String>,
    /// Whether the form control is disabled
    pub disabled: bool,
    /// Associates the element with a form element
    pub form: std::option::Option<String>,
    /// Whether to allow multiple values
    pub multiple: bool,
    /// Name of the element to use for form submission and in the form.elements API
    pub name: std::option::Option<String>,
    /// Whether the control is required for form submission
    pub required: bool,
    /// Size of the control
    pub size: std::option::Option<i64>,
}

impl Select {
    /// Whether this element kind is void, that is, has no closing tag.
    pub fn is_void(&self) -> (r: bool)
        ensures
            r == false,
    {
        false
    }

    /// The declared attribute fields, in markup order.
    pub open spec fn field_list(&self) -> Seq<Field> {
        seq![
            Field { name: "autocomplete", value: FieldValue::Text(self.autocomplete) },
            Field { name: "disabled", value: FieldValue::Flag(self.disabled) },
            Field { name: "form", value: FieldValue::Text(self.form) },
            Field { name: "multiple", value: FieldValue::Flag(self.multiple) },
            Field { name: "name", value: FieldValue::Text(self.name) },
            Field { name: "required", value: FieldValue::Flag(self.required) },
            Field { name: "size", value: FieldValue::Number(self.size) },
        ]
    }

    /// The declared attribute fields with their current values.
    pub fn fields(&self) -> (r: Vec<Field>)
        ensures
            r@ == self.field_list(),
    {
        let mut r: Vec<Field> = Vec::new();
        r.push(Field::text("autocomplete", &self.autocomplete));
        r.push(Field::flag("disabled", self.disabled));
        r.push(Field::text("form", &self.form));
        r.push(Field::flag("multiple", self.multiple));
        r.push(Field::text("name", &self.name));
        r.push(Field::flag("required", self.required));
        r.push(Field::number("size", self.size));
        r
    }

    /// The markup of the opening tag.
    pub open spec fn opening_markup(&self) -> Seq<char> {
        opening_tag_markup("select"@, self.field_list(), self.global_attrs.field_list(), self.data_map@)
    }

    /// The markup of the closing tag.
    pub open spec fn closing_markup(&self) -> Seq<char> {
        closing_tag_markup("select"@, false)
    }

    /// Appends the opening tag.
    pub fn write_opening_tag(&self, writer: &mut String)
        ensures
            final(writer)@ == old(writer)@ + self.opening_markup(),
    {
        let fields = self.fields();
        write_opening_tag(writer, "select", &fields, &self.global_attrs, &self.data_map);
    }

    /// Appends the closing tag.
    pub fn write_closing_tag(&self, writer: &mut String)
        ensures
            final(writer)@ == old(writer)@ + self.closing_markup(),
    {
        write_closing_tag(writer, "select", false);
    }

    /// The markup of the whole element.
    pub open spec fn markup(&self) -> Seq<char> {
        self.opening_markup() + self.closing_markup()
    }

    /// The markup of the element: its opening tag, its children if it has
    /// any, then its closing tag.
    pub fn to_string(&self) -> (r: String)
        ensures
            r@ == self.markup(),
    {
        let mut r = String::new();
        self.write_opening_tag(&mut r);
        self.write_closing_tag(&mut r);
        assert(r@ =~= self.markup());
        r
    }

    /// The global attributes.
    pub fn global_attributes(&self) -> (r: &GlobalAttributes)
        ensures
            *r == self.global_attrs,
    {
        &self.global_attrs
    }

    /// The global attributes, for changing them in place.
    pub fn global_attributes_mut(&mut self) -> (r: &mut GlobalAttributes)
        ensures
            *r == old(self).global_attrs,
            *final(self) == (Select { global_attrs: *final(r), ..*old(self) }),
    {
        &mut self.global_attrs
    }
}

impl HtmlElement for Select {
    open spec fn spec_markup(&self) -> Seq<char> {
        self.markup()
    }

    open spec fn spec_tag_name(&self) -> Seq<char> {
        "select"@
    }

    open spec fn spec_children(&self) -> Seq<Node> {
        Seq::empty()
    }

    open spec fn spec_attributes(&self) -> Seq<(Seq<char>, Seq<char>)> {
        field_pairs(self.field_list()) + field_pairs(self.global_attrs.field_list())
    }

    open spec fn spec_data(&self) -> Seq<(Seq<char>, Seq<char>)> {
        self.data_map@
    }

    fn attributes(&self) -> (r: Vec<(String, String)>) {
        let fields = self.fields();
        collect_attributes(&fields, &self.global_attrs)
    }

    fn data(&self) -> (r: &DataMap) {
        &self.data_map
    }

    fn tag_name(&self) -> (r: &'static str) {
        "select"
    }

    fn to_html(&self) -> (r: String) {
        self.to_string()
    }

    fn children(&self) -> (r: Vec<Node>) {
        Vec::new()
    }
}

/// The HTML `<textarea>` element
#[derive(Debug, Clone, PartialEq, Default)]
pub struct TextArea {
    /// The `data-*` attributes.
    pub data_map: DataMap,
    /// The attributes that every element kind has.
    pub global_attrs: GlobalAttributes,
    /// Hint for form autofill feature
    pub autocomplete: std::option::Option<String>,
    /// Maximum number of characters per line
    pub cols: std::option::Option<i64>,
    /// Name of form control to use for sending the element's directionality in form submission
    pub dir_name: std::option::Option<String>,
    /// Whether the form control is disabled
    pub disabled: bool,
    /// Associates the element with a form element
    pub form: std::option::Option<String>,
    /// Maximum length of value
    pub max_length: std::option::Option<i64>,
    /// Minimum length of value
    pub min_length: std::option::Option<i64>,
    /// Name of the element to use for form submission and in the form.elements API
    pub name: std::option::Option<String>,
    /// User-visible label to be placed within the form control
    pub placeholder: std::option::Option<String>,
    /// Whether to allow the value to be edited by the user
    pub read_only: bool,
    /// Whether the control is required for form submission
    pub required: bool,
    /// Number of lines to show
    pub rows: std::option::Option<i64>,
    /// How the value of the form control is to be wrapped for form submission
    pub wrap: std::option::Option<String>,
}

impl TextArea {
    /// Whether this element kind is void, that is, has no closing tag.
    pub fn is_void(&self) -> (r: bool)
        ensures
            r == false,
    {
        false
    }

    /// The declared attribute fields, in markup order.
    pub open spec fn field_list(&self) -> Seq<Field> {
        seq![
            Field { name: "autocomplete", value: FieldValue::Text(self.autocomplete) },
            Field { name: "cols", value: FieldValue::Number(self.cols) },
            Field { name: "dirname", value: FieldValue::Text(self.dir_name) },
            Field { name: "disabled", value: FieldValue::Flag(self.disabled) },
            Field { name: "form", value: FieldValue::Text(self.form) },
            Field { name: "maxlength", value: FieldValue::Number(self.max_length) },
            Field { name: "minlength", value: FieldValue::Number(self.min_length) },
            Field { name: "name", value: FieldValue::Text(self.name) },
            Field { name: "placeholder", value: FieldValue::Text(self.placeholder) },
            Field { name: "readonly", value: FieldValue::Flag(self.read_only) },
            Field { name: "required", value: FieldValue::Flag(self.required) },
            Field { name: "rows", value: FieldValue::Number(self.rows) },
            Field { name: "wrap", value: FieldValue::Text(self.wrap) },
        ]
    }

    /// The declared attribute fields with their current values.
    pub fn fields(&self) -> (r: Vec<Field>)
        ensures
            r@ == self.field_list(),
    {
        let mut r: Vec<Field> = Vec::new();
        r.push(Field::text("autocomplete", &self.autocomplete));
        r.push(Field::number("cols", self.cols));
        r.push(Field::text("dirname", &self.dir_name));
        r.push(Field::flag("disabled", self.disabled));
        r.push(Field::text("form", &self.form));
        r.push(Field::number("maxlength", self.max_length));
        r.push(Field::number("minlength", self.min_length));
        r.push(Field::text("name", &self.name));
        r.push(Field::text("placeholder", &self.placeholder));
        r.push(Field::flag("readonly", self.read_only));
        r.push(Field::flag("required", self.required));
        r.push(Field::number("rows", self.rows));
        r.push(Field::text("wrap", &self.wrap));
        r
    }

    /// The markup of the opening tag.
    pub open spec fn opening_markup(&self) -> Seq<char> {
        opening_tag_markup("textarea"@, self.field_list(), self.global_attrs.field_list(), self.data_map@)
    }

    /// The markup of the closing tag.
    pub open spec fn closing_markup(&self) -> Seq<char> {
        closing_tag_markup("textarea"@, false)
    }

    /// Appends the opening tag.
    pub fn write_opening_tag(&self, writer: &mut String)
        ensures
            final(writer)@ == old(writer)@ + self.opening_markup(),
    {
        let fields = self.fields();
        write_opening_tag(writer, "textarea", &fields, &self.global_attrs, &self.data_map);
    }

    /// Appends the closing tag.
    pub fn write_closing_tag(&self, writer: &mut String)
        ensures
            final(writer)@ == old(writer)@ + self.closing_markup(),
    {
        write_closing_tag(writer, "textarea", false);
    }

    /// The markup of the whole element.
    pub open spec fn markup(&self) -> Seq<char> {
        self.opening_markup() + self.closing_markup()
    }

    /// The markup of the element: its opening tag, its children if it has
    /// any, then its closing tag.
    pub fn to_string(&self) -> (r: String)
        ensures
            r@ == self.markup(),
    {
        let mut r = String::new();
        self.write_opening_tag(&mut r);
        self.write_closing_tag(&mut r);
        assert(r@ =~= self.markup());
        r
    }

    /// The global attributes.
    pub fn global_attributes(&self) -> (r: &GlobalAttributes)
        ensures
            *r == self.global_attrs,
    {
        &self.global_attrs
    }

    /// The global attributes, for changing them in place.
    pub fn global_attributes_mut(&mut self) -> (r: &mut GlobalAttributes)
        ensures
            *r == old(self).global_attrs,
            *final(self) == (TextArea { global_attrs: *final(r), ..*old(self) }),
    {
        &mut self.global_attrs
    }
}

impl HtmlElement for TextArea {
    open spec fn spec_markup(&self) -> Seq<char> {
        self.markup()
    }

    open spec fn spec_tag_name(&self) -> Seq<char> {
        "textarea"@
    }

    open spec fn spec_children(&self) -> Seq<Node> {
        Seq::empty()
    }

    open spec fn spec_attributes(&self) -> Seq<(Seq<char>, Seq<char>)> {
        field_pairs(self.field_list()) + field_pairs(self.global_attrs.field_list())
    }

    open spec fn spec_data(&self) -> Seq<(Seq<char>, Seq<char>)> {
        self.data_map@
    }

    fn attributes(&self) -> (r: Vec<(String, String)>) {
        let fields = self.fields();
        collect_attributes(&fields, &self.global_attrs)
    }

    fn data(&self) -> (r: &DataMap) {
        &self.data_map
    }

    fn tag_name(&self) -> (r: &'static str) {
        "textarea"
    }

    fn to_html(&self) -> (r: String) {
        self.to_string()
    }

    fn children(&self) -> (r: Vec<Node>) {
        Vec::new()
    }
}

/// The HTML `<form>` element
#[derive(Debug, Clone, PartialEq, Default)]
pub struct Form {
    /// The `data-*` attributes.
    pub data_map: DataMap,
    /// The attributes that every element kind has.
    pub global_attrs: GlobalAttributes,
    /// Character encodings to use for form submission
    pub accept_charset: std::option::Option<String>,
    /// URL to use for form submission
    pub action: std::option::Option<String>,
    /// Default setting for autofill feature for controls in the form
    pub autocomplete: std::option::Option<String>,
    /// Entry list encoding type to use for form submission
    pub enctype: std::option::Option<String>,
    /// Variant to use for form submission
    pub method: std::option::Option<String>,
    /// Name of form to use in the document.forms API
    pub name: std::option::Option<String>,
    /// Bypass form control validation for form submission
    pub no_validate: bool,
    /// Navigable for form submission
    pub target: std::option::Option<String>,
    /// Relationship between the document containing the form and its action destination
    pub rel: std::option::Option<String>,
    /// The child nodes, in order.
    pub children: Vec<Node>,
}

impl Form {
    /// Whether this element kind is void, that is, has no closing tag.
    pub fn is_void(&self) -> (r: bool)
        ensures
            r == false,
    {
        false
    }

    /// The declared attribute fields, in markup order.
    pub open spec fn field_list(&self) -> Seq<Field> {
        seq![
            Field { name: "accept-charset", value: FieldValue::Text(self.accept_charset) },
            Field { name: "action", value: FieldValue::Text(self.action) },
            Field { name: "autocomplete", value: FieldValue::Text(self.autocomplete) },
            Field { name: "enctype", value: FieldValue::Text(self.enctype) },
            Field { name: "method", value: FieldValue::Text(self.method) },
            Field { name: "name", value: FieldValue::Text(self.name) },
            Field { name: "novalidate", value: FieldValue::Flag(self.no_validate) },
            Field { name: "target", value: FieldValue::Text(self.target) },
            Field { name: "rel", value: FieldValue::Text(self.rel) },
        ]
    }

    /// The declared attribute fields with their current values.
    pub fn fields(&self) -> (r: Vec<Field>)
        ensures
            r@ == self.field_list(),
    {
        let mut r: Vec<Field> = Vec::new();
        r.push(Field::text("accept-charset", &self.accept_charset));
        r.push(Field::text("action", &self.action));
        r.push(Field::text("autocomplete", &self.autocomplete));
        r.push(Field::text("enctype", &self.enctype));
        r.push(Field::text("method", &self.method));
        r.push(Field::text("name", &self.name));
        r.push(Field::flag("novalidate", self.no_validate));
        r.push(Field::text("target", &self.target));
        r.push(Field::text("rel", &self.rel));
        r
    }

    /// The markup of the opening tag.
    pub open spec fn opening_markup(&self) -> Seq<char> {
        opening_tag_markup("form"@, self.field_list(), self.global_attrs.field_list(), self.data_map@)
    }

    /// The markup of the closing tag.
    pub open spec fn closing_markup(&self) -> Seq<char> {
        closing_tag_markup("form"@, false)
    }

    /// Appends the opening tag.
    pub fn write_opening_tag(&self, writer: &mut String)
        ensures
            final(writer)@ == old(writer)@ + self.opening_markup(),
    {
        let fields = self.fields();
        write_opening_tag(writer, "form", &fields, &self.global_attrs, &self.data_map);
    }

    /// Appends the closing tag.
    pub fn write_closing_tag(&self, writer: &mut String)
        ensures
            final(writer)@ == old(writer)@ + self.closing_markup(),
    {
        write_closing_tag(writer, "form", false);
    }

    /// The markup of the whole element.
    pub open spec fn markup(&self) -> Seq<char> {
        self.opening_markup() + nodes_markup(self.children@) + self.closing_markup()
    }

    /// The markup of the element: its opening tag, its children if it has
    /// any, then its closing tag.
    pub fn to_string(&self) -> (r: String)
        ensures
            r@ == self.markup(),
    {
        let mut r = String::new();
        self.write_opening_tag(&mut r);
        write_nodes(&mut r, &self.children);
        self.write_closing_tag(&mut r);
        assert(r@ =~= self.markup());
        r
    }

    /// The global attributes.
    pub fn global_attributes(&self) -> (r: &GlobalAttributes)
        ensures
            *r == self.global_attrs,
    {
        &self.global_attrs
    }

    /// The global attributes, for changing them in place.
    pub fn global_attributes_mut(&mut self) -> (r: &mut GlobalAttributes)
        ensures
            *r == old(self).global_attrs,
            *final(self) == (Form { global_attrs: *final(r), ..*old(self) }),
    {
        &mut self.global_attrs
    }
}

impl HtmlElement for Form {
    open spec fn spec_markup(&self) -> Seq<char> {
        self.markup()
    }

    open spec fn spec_tag_name(&self) -> Seq<char> {
        "form"@
    }

    open spec fn spec_children(&self) -> Seq<Node> {
        self.children@
    }

    open spec fn spec_attributes(&self) -> Seq<(Seq<char>, Seq<char>)> {
        field_pairs(self.field_list()) + field_pairs(self.global_attrs.field_list())
    }

    open spec fn spec_data(&self) -> Seq<(Seq<char>, Seq<char>)> {
        self.data_map@
    }

    fn attributes(&self) -> (r: Vec<(String, String)>) {
        let fields = self.fields();
        collect_attributes(&fields, &self.global_attrs)
    }

    fn data(&self) -> (r: &DataMap) {
        &self.data_map
    }

    fn tag_name(&self) -> (r: &'static str) {
        "form"
    }

    fn to_html(&self) -> (r: String) {
        self.to_string()
    }

    fn children(&self) -> (r: Vec<Node>) {
        let mut r: Vec<Node> = Vec::new();
        let mut i: usize = 0;
        while i < self.children.len()
            invariant
                i <= self.children@.len(),
                r@ == self.children@.take(i as int),
            decreases self.children@.len() - i,
        {
            r.push(self.children[i].clone_node());
            assert(r@ =~= self.children@.take(i + 1));
            i = i + 1;
        }
        assert(self.children@.take(i as int) =~= self.children@);
        r
    }
}

/// The HTML `<input>` element
#[derive(Debug, Clone, PartialEq, Default)]
pub struct Input {
    /// The `data-*` attributes.
    pub data_map: DataMap,
    /// The attributes that every element kind has.
    pub global_attrs: GlobalAttributes,
    /// Hint for expected file type in file upload controls
    pub accept: std::option::Option<String>,
    /// Replacement text for use when images are not available
    pub alt: std::option::Option<String>,
    /// Hint for form autofill feature
    pub autocomplete: std::option::Option<String>,
    /// Whether the control is checked
    pub checked: bool,
    /// Name of form control to use for sending the element's directionality in form submission
    pub dir_name: std::option::Option<String>,
    /// Whether the form control is disabled
    pub disabled: bool,
    /// Associates the element with a form element
    pub form: std::option::Option<String>,
    /// List of autocomplete options
    pub list: std::option::Option<String>,
    /// Maximum value
    pub max: std::option::Option<String>,
    /// Maximum length of value
    pub max_length: std::option::Option<i64>,
    /// Minimum value
    pub min: std::option::Option<String>,
    /// Minimum length of value
    pub min_length: std::option::Option<i64>,
    /// Whether to allow multiple values
    pub multiple: bool,
    /// Name of the element to use for form submission and in the form.elements API
    pub name: std::option::Option<String>,
    /// Pattern to be matched by the form control's value
    pub pattern: std::option::Option<String>,
    /// User-visible label to be placed within the form control
    pub placeholder: std::option::Option<String>,
    /// Whether to allow the value to be edited by the user
    pub read_only: bool,
    /// Whether the control is required for form submission
    pub required: bool,
    /// Size of the control
    pub size: std::option::Option<i64>,
    /// Address of the resource
    pub src: std::option::Option<String>,
    /// Granularity to be matched by the form control's value
    pub step: std::option::Option<String>,
    /// Type of form control
    pub type_: std::option::Option<String>,
    /// Value of the form control
    pub value: std::option::Option<String>,
    /// Horizontal dimension
    pub width: std::option::Option<i64>,
    /// Vertical dimension
    pub height: std::option::Option<i64>,
}

impl Input {
    /// Whether this element kind is void, that is, has no closing tag.
    pub fn is_void(&self) -> (r: bool)
        ensures
            r == true,
    {
        true
    }

    /// The declared attribute fields, in markup order.
    pub open spec fn field_list(&self) -> Seq<Field> {
        seq![
            Field { name: "accept", value: FieldValue::Text(self.accept) },
            Field { name: "alt", value: FieldValue::Text(self.alt) },
            Field { name: "autocomplete", value: FieldValue::Text(self.autocomplete) },
            Field { name: "checked", value: FieldValue::Flag(self.checked) },
            Field { name: "dirname", value: FieldValue::Text(self.dir_name) },
            Field { name: "disabled", value: FieldValue::Flag(self.disabled) },
            Field { name: "form", value: FieldValue::Text(self.form) },
            Field { name: "list", value: FieldValue::Text(self.list) },
            Field { name: "max", value: FieldValue::Text(self.max) },
            Field { name: "maxlength", value: FieldValue::Number(self.max_length) },
            Field { name: "min", value: FieldValue::Text(self.min) },
            Field { name: "minlength", value: FieldValue::Number(self.min_length) },
            Field { name: "multiple", value: FieldValue::Flag(self.multiple) },
            Field { name: "name", value: FieldValue::Text(self.name) },
            Field { name: "pattern", value: FieldValue::Text(self.pattern) },
            Field { name: "placeholder", value: FieldValue::Text(self.placeholder) },
            Field { name: "readonly", value: FieldValue::Flag(self.read_only) },
            Field { name: "required", value: FieldValue::Flag(self.required) },
            Field { name: "size", value: FieldValue::Number(self.size) },
            Field { name: "src", value: FieldValue::Text(self.src) },
            Field { name: "step", value: FieldValue::Text(self.step) },
            Field { name: "type", value: FieldValue::Text(self.type_) },
            Field { name: "value", value: FieldValue::Text(self.value) },
            Field { name: "width", value: FieldValue::Number(self.width) },
            Field { name: "height", value: FieldValue::Number(self.height) },
        ]
    }

    /// The declared attribute fields with their current values.
    #[verifier::rlimit(40)]
    pub fn fields(&self) -> (r: Vec<Field>)
        ensures
            r@ == self.field_list(),
    {
        let mut r: Vec<Field> = Vec::new();
        r.push(Field::text("accept", &self.accept));
        r.push(Field::text("alt", &self.alt));
        r.push(Field::text("autocomplete", &self.autocomplete));
        r.push(Field::flag("checked", self.checked));
        r.push(Field::text("dirname", &self.dir_name));
        r.push(Field::flag("disabled", self.disabled));
        r.push(Field::text("form", &self.form));
        r.push(Field::text("list", &self.list));
        r.push(Field::text("max", &self.max));
        r.push(Field::number("maxlength", self.max_length));
        r.push(Field::text("min", &self.min));
        r.push(Field::number("minlength", self.min_length));
        r.push(Field::flag("multiple", self.multiple));
        r.push(Field::text("name", &self.name));
        r.push(Field::text("pattern", &self.pattern));
        r.push(Field::text("placeholder", &self.placeholder));
        r.push(Field::flag("readonly", self.read_only));
        r.push(Field::flag("required", self.required));
        r.push(Field::number("size", self.size));
        r.push(Field::text("src", &self.src));
        r.push(Field::text("step", &self.step));
        r.push(Field::text("type", &self.type_));
        r.push(Field::text("value", &self.value));
        r.push(Field::number("width", self.width));
        r.push(Field::number("height", self.height));
        r
    }

    /// The markup of the opening tag.
    pub open spec fn opening_markup(&self) -> Seq<char> {
        opening_tag_markup("input"@, self.field_list(), self.global_attrs.field_list(), self.data_map@)
    }

    /// The markup of the closing tag.
    pub open spec fn closing_markup(&self) -> Seq<char> {
        closing_tag_markup("input"@, true)
    }

    /// Appends the opening tag.
    pub fn write_opening_tag(&self, writer: &mut String)
        ensures
            final(writer)@ == old(writer)@ + self.opening_markup(),
    {
        let fields = self.fields();
        write_opening_tag(writer, "input", &fields, &self.global_attrs, &self.data_map);
    }

    /// Appends the closing tag.
    pub fn write_closing_tag(&self, writer: &mut String)
        ensures
            final(writer)@ == old(writer)@ + self.closing_markup(),
    {
        write_closing_tag(writer, "input", true);
    }

    /// The markup of the whole element.
    pub open spec fn markup(&self) -> Seq<char> {
        self.opening_markup() + self.closing_markup()
    }

    /// The markup of the element: its opening tag, its children if it has
    /// any, then its closing tag.
    pub fn to_string(&self) -> (r: String)
        ensures
            r@ == self.markup(),
    {
        let mut r = String::new();
        self.write_opening_tag(&mut r);
        self.write_closing_tag(&mut r);
        assert(r@ =~= self.markup());
        r
    }

    /// The global attributes.
    pub fn global_attributes(&self) -> (r: &GlobalAttributes)
        ensures
            *r == self.global_attrs,
    {
        &self.global_attrs
    }

    /// The global attributes, for changing them in place.
    pub fn global_attributes_mut(&mut self) -> (r: &mut GlobalAttributes)
        ensures
            *r == old(self).global_attrs,
            *final(self) == (Input { global_attrs: *final(r), ..*old(self) }),
    {
        &mut self.global_attrs
    }
}

impl HtmlElement for Input {
    open spec fn spec_markup(&self) -> Seq<char> {
        self.markup()
    }

    open spec fn spec_tag_name(&self) -> Seq<char> {
        "input"@
    }

    open spec fn spec_children(&self) -> Seq<Node> {
        Seq::empty()
    }

    open spec fn spec_attributes(&self) -> Seq<(Seq<char>, Seq<char>)> {
        field_pairs(self.field_list()) + field_pairs(self.global_attrs.field_list())
    }

    open spec fn spec_data(&self) -> Seq<(Seq<char>, Seq<char>)> {
        self.data_map@
    }

    fn attributes(&self) -> (r: Vec<(String, String)>) {
        let fields = self.fields();
        collect_attributes(&fields, &self.global_attrs)
    }

    fn data(&self) -> (r: &DataMap) {
        &self.data_map
    }

    fn tag_name(&self) -> (r: &'static str) {
        "input"
    }

    fn to_html(&self) -> (r: String) {
        self.to_string()
    }

    fn children(&self) -> (r: Vec<Node>) {
        Vec::new()
    }
}

impl Form {
    /// An element with no attribute set and no child.
    pub fn new() -> (r: Form)
        ensures
            r.data_map@ == Seq::<(Seq<char>, Seq<char>)>::empty(),
            r.global_attrs == GlobalAttributes::blank(),
            r.accept_charset == None::<String>,
            r.action == None::<String>,
            r.autocomplete == None::<String>,
            r.enctype == None::<String>,
            r.method == None::<String>,
            r.name == None::<String>,
            r.no_validate == false,
            r.target == None::<String>,
            r.rel == None::<String>,
            r.children@ == Seq::<Node>::empty(),
    {
        Form {
            data_map: DataMap::new(),
            global_attrs: GlobalAttributes::new(),
            accept_charset: None,
            action: None,
            autocomplete: None,
            enctype: None,
            method: None,
            name: None,
            no_validate: false,
            target: None,
            rel: None,
            children: Vec::new(),
        }
    }

    /// A builder that starts from an element with nothing set.
    pub fn builder() -> (r: FormBuilder)
        ensures
            Form::is_blank(r.element),
    {
        FormBuilder { element: Form::new() }
    }

    /// Whether `e` is an element with nothing set.
    pub open spec fn is_blank(e: Form) -> bool {
        Form::has_no_attributes(e) && e.children@ == Seq::<Node>::empty()
    }

    /// Whether `e` has no attribute and no dataset entry set.
    pub open spec fn has_no_attributes(e: Form) -> bool {
        e.data_map@ == Seq::<(Seq<char>, Seq<char>)>::empty() && e.global_attrs == GlobalAttributes::blank() && e.accept_charset == None::<String> && e.action == None::<String> && e.autocomplete == None::<String> && e.enctype == None::<String> && e.method == None::<String> && e.name == None::<String> && e.no_validate == false && e.target == None::<String> && e.rel == None::<String>
    }

}

/// Builds a [`Form`] one attribute at a time.
pub struct FormBuilder {
    /// The element built so far.
    pub element: Form,
}

impl FormBuilder {
    /// Sets `accept-charset`.
    pub fn accept_charset(self, value: &str) -> (r: FormBuilder)
        ensures
            r.element.accept_charset is Some && r.element.accept_charset->Some_0@ == value@,
            r.element == (Form { accept_charset: r.element.accept_charset, ..self.element }),
    {
        let mut element = self.element;
        element.accept_charset = Some(value.to_owned());
        FormBuilder { element }
    }

    /// Sets `action`.
    pub fn action(self, value: &str) -> (r: FormBuilder)
        ensures
            r.element.action is Some && r.element.action->Some_0@ == value@,
            r.element == (Form { action: r.element.action, ..self.element }),
    {
        let mut element = self.element;
        element.action = Some(value.to_owned());
        FormBuilder { element }
    }

    /// Sets `autocomplete`.
    pub fn autocomplete(self, value: &str) -> (r: FormBuilder)
        ensures
            r.element.autocomplete is Some && r.element.autocomplete->Some_0@ == value@,
            r.element == (Form { autocomplete: r.element.autocomplete, ..self.element }),
    {
        let mut element = self.element;
        element.autocomplete = Some(value.to_owned());
        FormBuilder { element }
    }

    /// Sets `enctype`.
    pub fn enctype(self, value: &str) -> (r: FormBuilder)
        ensures
            r.element.enctype is Some && r.element.enctype->Some_0@ == value@,
            r.element == (Form { enctype: r.element.enctype, ..self.element }),
    {
        let mut element = self.element;
        element.enctype = Some(value.to_owned());
        FormBuilder { element }
    }

    /// Sets `method`.
    pub fn method(self, value: &str) -> (r: FormBuilder)
        ensures
            r.element.method is Some && r.element.method->Some_0@ == value@,
            r.element == (Form { method: r.element.method, ..self.element }),
    {
        let mut element = self.element;
        element.method = Some(value.to_owned());
        FormBuilder { element }
    }

    /// Sets `name`.
    pub fn name(self, value: &str) -> (r: FormBuilder)
        ensures
            r.element.name is Some && r.element.name->Some_0@ == value@,
            r.element == (Form { name: r.element.name, ..self.element }),
    {
        let mut element = self.element;
        element.name = Some(value.to_owned());
        FormBuilder { element }
    }

    /// Sets `novalidate`.
    pub fn no_validate(self, value: bool) -> (r: FormBuilder)
        ensures
            r.element == (Form { no_validate: value, ..self.element }),
    {
        let mut element = self.element;
        element.no_validate = value;
        FormBuilder { element }
    }

    /// Sets `target`.
    pub fn target(self, value: &str) -> (r: FormBuilder)
        ensures
            r.element.target is Some && r.element.target->Some_0@ == value@,
            r.element == (Form { target: r.element.target, ..self.element }),
    {
        let mut element = self.element;
        element.target = Some(value.to_owned());
        FormBuilder { element }
    }

    /// Sets `rel`.
    pub fn rel(self, value: &str) -> (r: FormBuilder)
        ensures
            r.element.rel is Some && r.element.rel->Some_0@ == value@,
            r.element == (Form { rel: r.element.rel, ..self.element }),
    {
        let mut element = self.element;
        element.rel = Some(value.to_owned());
        FormBuilder { element }
    }

    /// Sets the global attribute `class`.
    pub fn class(self, value: &str) -> (r: FormBuilder)
        ensures
            r.element.global_attrs.class is Some && r.element.global_attrs.class->Some_0@ == value@,
            r.element == (Form {
                global_attrs: (GlobalAttributes { class: r.element.global_attrs.class, ..self.element.global_attrs }),
                ..self.element
            }),
    {
        let mut element = self.element;
        element.global_attrs.class = Some(value.to_owned());
        FormBuilder { element }
    }

    /// Sets the global attribute `id`.
    pub fn id(self, value: &str) -> (r: FormBuilder)
        ensures
            r.element.global_attrs.id is Some && r.element.global_attrs.id->Some_0@ == value@,
            r.element == (Form {
                global_attrs: (GlobalAttributes { id: r.element.global_attrs.id, ..self.element.global_attrs }),
                ..self.element
            }),
    {
        let mut element = self.element;
        element.global_attrs.id = Some(value.to_owned());
        FormBuilder { element }
    }

    /// Sets the global attribute `lang`.
    pub fn lang(self, value: &str) -> (r: FormBuilder)
        ensures
            r.element.global_attrs.lang is Some && r.element.global_attrs.lang->Some_0@ == value@,
            r.element == (Form {
                global_attrs: (GlobalAttributes { lang: r.element.global_attrs.lang, ..self.element.global_attrs }),
                ..self.element
            }),
    {
        let mut element = self.element;
        element.global_attrs.lang = Some(value.to_owned());
        FormBuilder { element }
    }

    /// Sets the global attribute `style`.
    pub fn style(self, value: &str) -> (r: FormBuilder)
        ensures
            r.element.global_attrs.style is Some && r.element.global_attrs.style->Some_0@ == value@,
            r.element == (Form {
                global_attrs: (GlobalAttributes { style: r.element.global_attrs.style, ..self.element.global_attrs }),
                ..self.element
            }),
    {
        let mut element = self.element;
        element.global_attrs.style = Some(value.to_owned());
        FormBuilder { element }
    }

    /// Sets the global attribute `title`.
    pub fn title(self, value: &str) -> (r: FormBuilder)
        ensures
            r.element.global_attrs.title is Some && r.element.global_attrs.title->Some_0@ == value@,
            r.element == (Form {
                global_attrs: (GlobalAttributes { title: r.element.global_attrs.title, ..self.element.global_attrs }),
                ..self.element
            }),
    {
        let mut element = self.element;
        element.global_attrs.title = Some(value.to_owned());
        FormBuilder { element }
    }

    /// Sets the dataset entry `key` to `value`.
    pub fn data(self, key: &str, value: &str) -> (r: FormBuilder)
        ensures
            r.element.data_map@ == set_entry(self.element.data_map@, key@, value@),
            self.element.data_map.wf() ==> r.element.data_map.wf(),
            r.element == (Form { data_map: r.element.data_map, ..self.element }),
    {
        let mut element = self.element;
        element.data_map.insert(key.to_owned(), value.to_owned());
        FormBuilder { element }
    }

    /// Appends a child node.
    pub fn push(self, child: Node) -> (r: FormBuilder)
        ensures
            r.element.children@ == self.element.children@.push(child),
            r.element == (Form { children: r.element.children, ..self.element }),
    {
        let mut element = self.element;
        element.children.push(child);
        FormBuilder { element }
    }

    /// The element built.
    pub fn build(self) -> (r: Form)
        ensures
            r == self.element,
    {
        self.element
    }
}

impl Input {
    /// An element with no attribute set.
    pub fn new() -> (r: Input)
        ensures
            r.data_map@ == Seq::<(Seq<char>, Seq<char>)>::empty(),
            r.global_attrs == GlobalAttributes::blank(),
            r.accept == None::<String>,
            r.alt == None::<String>,
            r.autocomplete == None::<String>,
            r.checked == false,
            r.dir_name == None::<String>,
            r.disabled == false,
            r.form == None::<String>,
            r.list == None::<String>,
            r.max == None::<String>,
            r.max_length == None::<i64>,
            r.min == None::<String>,
            r.min_length == None::<i64>,
            r.multiple == false,
            r.name == None::<String>,
            r.pattern == None::<String>,
            r.placeholder == None::<String>,
            r.read_only == false,
            r.required == false,
            r.size == None::<i64>,
            r.src == None::<String>,
            r.step == None::<String>,
            r.type_ == None::<String>,
            r.value == None::<String>,
            r.width == None::<i64>,
            r.height == None::<i64>,
    {
        Input {
            data_map: DataMap::new(),
            global_attrs: GlobalAttributes::new(),
            accept: None,
            alt: None,
            autocomplete: None,
            checked: false,
            dir_name: None,
            disabled: false,
            form: None,
            list: None,
            max: None,
            max_length: None,
            min: None,
            min_length: None,
            multiple: false,
            name: None,
            pattern: None,
            placeholder: None,
            read_only: false,
            required: false,
            size: None,
            src: None,
            step: None,
            type_: None,
            value: None,
            width: None,
            height: None,
        }
    }

    /// A builder that starts from an element with nothing set.
    pub fn builder() -> (r: InputBuilder)
        ensures
            Input::is_blank(r.element),
    {
        InputBuilder { element: Input::new() }
    }

    /// Whether `e` is an element with nothing set.
    pub open spec fn is_blank(e: Input) -> bool {
        e.data_map@ == Seq::<(Seq<char>, Seq<char>)>::empty() && e.global_attrs == GlobalAttributes::blank() && e.accept == None::<String> && e.alt == None::<String> && e.autocomplete == None::<String> && e.checked == false && e.dir_name == None::<String> && e.disabled == false && e.form == None::<String> && e.list == None::<String> && e.max == None::<String> && e.max_length == None::<i64> && e.min == None::<String> && e.min_length == None::<i64> && e.multiple == false && e.name == None::<String> && e.pattern == None::<String> && e.placeholder == None::<String> && e.read_only == false && e.required == false && e.size == None::<i64> && e.src == None::<String> && e.step == None::<String> && e.type_ == None::<String> && e.value == None::<String> && e.width == None::<i64> && e.height == None::<i64>
    }

}

/// Builds a [`Input`] one attribute at a time.
pub struct InputBuilder {
    /// The element built so far.
    pub element: Input,
}

impl InputBuilder {
    /// Sets `accept`.
    pub fn accept(self, value: &str) -> (r: InputBuilder)
        ensures
            r.element.accept is Some && r.element.accept->Some_0@ == value@,
            r.element == (Input { accept: r.element.accept, ..self.element }),
    {
        let mut element = self.element;
        element.accept = Some(value.to_owned());
        InputBuilder { element }
    }

    /// Sets `alt`.
    pub fn alt(self, value: &str) -> (r: InputBuilder)
        ensures
            r.element.alt is Some && r.element.alt->Some_0@ == value@,
            r.element == (Input { alt: r.element.alt, ..self.element }),
    {
        let mut element = self.element;
        element.alt = Some(value.to_owned());
        InputBuilder { element }
    }

    /// Sets `autocomplete`.
    pub fn autocomplete(self, value: &str) -> (r: InputBuilder)
        ensures
            r.element.autocomplete is Some && r.element.autocomplete->Some_0@ == value@,
            r.element == (Input { autocomplete: r.element.autocomplete, ..self.element }),
    {
        let mut element = self.element;
        element.autocomplete = Some(value.to_owned());
        InputBuilder { element }
    }

    /// Sets `checked`.
    pub fn checked(self, value: bool) -> (r: InputBuilder)
        ensures
            r.element == (Input { checked: value, ..self.element }),
    {
        let mut element = self.element;
        element.checked = value;
        InputBuilder { element }
    }

    /// Sets `dirname`.
    pub fn dir_name(self, value: &str) -> (r: InputBuilder)
        ensures
            r.element.dir_name is Some && r.element.dir_name->Some_0@ == value@,
            r.element == (Input { dir_name: r.element.dir_name, ..self.element }),
    {
        let mut element = self.element;
        element.dir_name = Some(value.to_owned());
        InputBuilder { element }
    }

    /// Sets `disabled`.
    pub fn disabled(self, value: bool) -> (r: InputBuilder)
        ensures
            r.element == (Input { disabled: value, ..self.element }),
    {
        let mut element = self.element;
        element.disabled = value;
        InputBuilder { element }
    }

    /// Sets `form`.
    pub fn form(self, value: &str) -> (r: InputBuilder)
        ensures
            r.element.form is Some && r.element.form->Some_0@ == value@,
            r.element == (Input { form: r.element.form, ..self.element }),
    {
        let mut element = self.element;
        element.form = Some(value.to_owned());
        InputBuilder { element }
    }

    /// Sets `list`.
    pub fn list(self, value: &str) -> (r: InputBuilder)
        ensures
            r.element.list is Some && r.element.list->Some_0@ == value@,
            r.element == (Input { list: r.element.list, ..self.element }),
    {
        let mut element = self.element;
        element.list = Some(value.to_owned());
        InputBuilder { element }
    }

    /// Sets `max`.
    pub fn max(self, value: &str) -> (r: InputBuilder)
        ensures
            r.element.max is Some && r.element.max->Some_0@ == value@,
            r.element == (Input { max: r.element.max, ..self.element }),
    {
        let mut element = self.element;
        element.max = Some(value.to_owned());
        InputBuilder { element }
    }

    /// Sets `maxlength`.
    pub fn max_length(self, value: i64) -> (r: InputBuilder)
        ensures
            r.element == (Input { max_length: Some(value), ..self.element }),
    {
        let mut element = self.element;
        element.max_length = Some(value);
        InputBuilder { element }
    }

    /// Sets `min`.
    pub fn min(self, value: &str) -> (r: InputBuilder)
        ensures
            r.element.min is Some && r.element.min->Some_0@ == value@,
            r.element == (Input { min: r.element.min, ..self.element }),
    {
        let mut element = self.element;
        element.min = Some(value.to_owned());
        InputBuilder { element }
    }

    /// Sets `minlength`.
    pub fn min_length(self, value: i64) -> (r: InputBuilder)
        ensures
            r.element == (Input { min_length: Some(value), ..self.element }),
    {
        let mut element = self.element;
        element.min_length = Some(value);
        InputBuilder { element }
    }

    /// Sets `multiple`.
    pub fn multiple(self, value: bool) -> (r: InputBuilder)
        ensures
            r.element == (Input { multiple: value, ..self.element }),
    {
        let mut element = self.element;
        element.multiple = value;
        InputBuilder { element }
    }

    /// Sets `name`.
    pub fn name(self, value: &str) -> (r: InputBuilder)
        ensures
            r.element.name is Some && r.element.name->Some_0@ == value@,
            r.element == (Input { name: r.element.name, ..self.element }),
    {
        let mut element = self.element;
        element.name = Some(value.to_owned());
        InputBuilder { element }
    }

    /// Sets `pattern`.
    pub fn pattern(self, value: &str) -> (r: InputBuilder)
        ensures
            r.element.pattern is Some && r.element.pattern->Some_0@ == value@,
            r.element == (Input { pattern: r.element.pattern, ..self.element }),
    {
        let mut element = self.element;
        element.pattern = Some(value.to_owned());
        InputBuilder { element }
    }

    /// Sets `placeholder`.
    pub fn placeholder(self, value: &str) -> (r: InputBuilder)
        ensures
            r.element.placeholder is Some && r.element.placeholder->Some_0@ == value@,
            r.element == (Input { placeholder: r.element.placeholder, ..self.element }),
    {
        let mut element = self.element;
        element.placeholder = Some(value.to_owned());
        InputBuilder { element }
    }

    /// Sets `readonly`.
    pub fn read_only(self, value: bool) -> (r: InputBuilder)
        ensures
            r.element == (Input { read_only: value, ..self.element }),
    {
        let mut element = self.element;
        element.read_only = value;
        InputBuilder { element }
    }

    /// Sets `required`.
    pub fn required(self, value: bool) -> (r: InputBuilder)
        ensures
            r.element == (Input { required: value, ..self.element }),
    {
        let mut element = self.element;
        element.required = value;
        InputBuilder { element }
    }

    /// Sets `size`.
    pub fn size(self, value: i64) -> (r: InputBuilder)
        ensures
            r.element == (Input { size: Some(value), ..self.element }),
    {
        let mut element = self.element;
        element.size = Some(value);
        InputBuilder { element }
    }

    /// Sets `src`.
    pub fn src(self, value: &str) -> (r: InputBuilder)
        ensures
            r.element.src is Some && r.element.src->Some_0@ == value@,
            r.element == (Input { src: r.element.src, ..self.element }),
    {
        let mut element = self.element;
        element.src = Some(value.to_owned());
        InputBuilder { element }
    }

    /// Sets `step`.
    pub fn step(self, value: &str) -> (r: InputBuilder)
        ensures
            r.element.step is Some && r.element.step->Some_0@ == value@,
            r.element == (Input { step: r.element.step, ..self.element }),
    {
        let mut element = self.element;
        element.step = Some(value.to_owned());
        InputBuilder { element }
    }

    /// Sets `type`.
    pub fn type_(self, value: &str) -> (r: InputBuilder)
        ensures
            r.element.type_ is Some && r.element.type_->Some_0@ == value@,
            r.element == (Input { type_: r.element.type_, ..self.element }),
    {
        let mut element = self.element;
        element.type_ = Some(value.to_owned());
        InputBuilder { element }
    }

    /// Sets `value`.
    pub fn value(self, value: &str) -> (r: InputBuilder)
        ensures
            r.element.value is Some && r.element.value->Some_0@ == value@,
            r.element == (Input { value: r.element.value, ..self.element }),
    {
        let mut element = self.element;
        element.value = Some(value.to_owned());
        InputBuilder { element }
    }

    /// Sets `width`.
    pub fn width(self, value: i64) -> (r: InputBuilder)
        ensures
            r.element == (Input { width: Some(value), ..self.element }),
    {
        let mut element = self.element;
        element.width = Some(value);
        InputBuilder { element }
    }

    /// Sets `height`.
    pub fn height(self, value: i64) -> (r: InputBuilder)
        ensures
            r.element == (Input { height: Some(value), ..self.element }),
    {
        let mut element = self.element;
        element.height = Some(value);
        InputBuilder { element }
    }

    /// Sets the global attribute `class`.
    pub fn class(self, value: &str) -> (r: InputBuilder)
        ensures
            r.element.global_attrs.class is Some && r.element.global_attrs.class->Some_0@ == value@,
            r.element == (Input {
                global_attrs: (GlobalAttributes { class: r.element.global_attrs.class, ..self.element.global_attrs }),
                ..self.element
            }),
    {
        let mut element = self.element;
        element.global_attrs.class = Some(value.to_owned());
        InputBuilder { element }
    }

    /// Sets the global attribute `id`.
    pub fn id(self, value: &str) -> (r: InputBuilder)
        ensures
            r.element.global_attrs.id is Some && r.element.global_attrs.id->Some_0@ == value@,
            r.element == (Input {
                global_attrs: (GlobalAttributes { id: r.element.global_attrs.id, ..self.element.global_attrs }),
                ..self.element
            }),
    {
        let mut element = self.element;
        element.global_attrs.id = Some(value.to_owned());
        InputBuilder { element }
    }

    /// Sets the global attribute `lang`.
    pub fn lang(self, value: &str) -> (r: InputBuilder)
        ensures
            r.element.global_attrs.lang is Some && r.element.global_attrs.lang->Some_0@ == value@,
            r.element == (Input {
                global_attrs: (GlobalAttributes { lang: r.element.global_attrs.lang, ..self.element.global_attrs }),
                ..self.element
            }),
    {
        let mut element = self.element;
        element.global_attrs.lang = Some(value.to_owned());
        InputBuilder { element }
    }

    /// Sets the global attribute `style`.
    pub fn style(self, value: &str) -> (r: InputBuilder)
        ensures
            r.element.global_attrs.style is Some && r.element.global_attrs.style->Some_0@ == value@,
            r.element == (Input {
                global_attrs: (GlobalAttributes { style: r.element.global_attrs.style, ..self.element.global_attrs }),
                ..self.element
            }),
    {
        let mut element = self.element;
        element.global_attrs.style = Some(value.to_owned());
        InputBuilder { element }
    }

    /// Sets the global attribute `title`.
    pub fn title(self, value: &str) -> (r: InputBuilder)
        ensures
            r.element.global_attrs.title is Some && r.element.global_attrs.title->Some_0@ == value@,
            r.element == (Input {
                global_attrs: (GlobalAttributes { title: r.element.global_attrs.title, ..self.element.global_attrs }),
                ..self.element
            }),
    {
        let mut element = self.element;
        element.global_attrs.title = Some(value.to_owned());
        InputBuilder { element }
    }

    /// Sets the dataset entry `key` to `value`.
    pub fn data(self, key: &str, value: &str) -> (r: InputBuilder)
        ensures
            r.element.data_map@ == set_entry(self.element.data_map@, key@, value@),
            self.element.data_map.wf() ==> r.element.data_map.wf(),
            r.element == (Input { data_map: r.element.data_map, ..self.element }),
    {
        let mut element = self.element;
        element.data_map.insert(key.to_owned(), value.to_owned());
        InputBuilder { element }
    }

    /// The element built.
    pub fn build(self) -> (r: Input)
        ensures
            r == self.element,
    {
        self.element
    }
}

} // verus!
