//! Embedded content: audio, video, images, frames and objects.

use vstd::prelude::*;
use crate::dataset::DataMap;
use crate::element::{
    closing_tag_markup, collect_attributes, opening_tag_markup, write_closing_tag, write_opening_tag, HtmlElement,
    Node,
};
use crate::global::GlobalAttributes;
use crate::markup::{field_pairs, Field, FieldValue};

verus! {

/// The HTML `<audio>` element
#[derive(Debug, Clone, PartialEq, Default)]
pub struct Audio {
    /// The `data-*` attributes.
    pub data_map: DataMap,
    /// The attributes that every element kind has.
    pub global_attrs: GlobalAttributes,
    /// Address of the resource
    pub src: Option<String>,
    /// How the element handles crossorigin requests
    pub crossorigin: Option<String>,
    /// Hints how much buffering the media resource will likely need
    pub preload: Option<String>,
    /// Hint that the media resource can be started automatically when the page is loaded
    pub autoplay: Option<String>,
    /// Whether to loop the media resource
    pub loop_: Option<String>,
    /// Whether to mute the media resource by default
    pub muted: Option<String>,
    /// Show user agent controls
    pub controls: Option<String>,
    /// Describes the role(s) the current element plays in the context of the document.
    pub role: Option<String>,
    /// Identifies the currently active element when DOM focus is on a composite widget, combobox, textbox, group, or application.
    pub aria_active_descendant_element: Option<String>,
    /// Indicates whether assistive technologies will present all, or only parts of, the changed region based on the change notifications defined by the aria-relevant attribute.
    pub aria_atomic: bool,
    /// Defines a string value that labels the current element, which is intended to be converted into Braille. See related aria-label.
    pub aria_braille_label: Option<String>,
    /// Defines a human-readable, author-localized abbreviated description for the role of an element, which is intended to be converted into Braille. See related aria-roledescription.
    pub aria_braille_role_description: Option<String>,
    /// Indicates an element is being modified and that assistive technologies could wait until the modifications are complete before exposing them to the user.
    pub aria_busy: bool,
    /// Identifies the element (or elements) whose contents or presence are controlled by the current element. See related aria-owns.
    pub aria_controls_elements: Option<String>,
    /// Indicates the element that represents the current item within a container or set of related elements.
    pub aria_current: Option<String>,
    /// Identifies the element (or elements) that describes the object. See related aria-labelledby and aria-description.
    pub aria_described_by_elements: Option<String>,
    /// Defines a string value that describes or annotates the current element. See related aria-describedby.
    pub aria_description: Option<String>,
    /// Identifies the element (or elements) that provide additional information related to the object. See related aria-describedby.
    pub aria_details_elements: Option<String>,
    /// Indicates that the element is perceivable but disabled, so it is not editable or otherwise operable. See related aria-hidden and aria-readonly.
    pub aria_disabled: bool,
    /// [Deprecated in ARIA 1.1] Indicates what functions can be performed when a dragged object is released on the drop target.
    pub aria_drop_effect: Option<String>,
    /// Identifies the element (or elements) that provides an error message for an object. See related aria-invalid and aria-describedby.
    pub aria_error_message_elements: Option<String>,
    /// Indicates whether a grouping element owned or controlled by this element is expanded or collapsed.
    pub aria_expanded: bool,
    /// Identifies the next element (or elements) in an alternate reading order of content which, at the user's discretion, allows assistive technology to override the general default of reading in document source order.
    pub aria_flow_to_elements: Option<String>,
    /// [Deprecated in ARIA 1.1] Indicates an element's "grabbed" state in a drag-and-drop operation.
    pub aria_grabbed: bool,
    /// Indicates the availability and type of interactive popup element, such as menu or dialog, that can be triggered by an element.
    pub aria_has_popup: Option<String>,
    /// Indicates whether the element is exposed to an accessibility API. See related aria-disabled.
    pub aria_hidden: bool,
    /// Indicates the entered value does not conform to the format expected by the application. See related aria-errormessage.
    pub aria_invalid: Option<String>,
    /// Defines keyboard shortcuts that an author has implemented to activate or give focus to an element.
    pub aria_key_shortcuts: Option<String>,
    /// Defines a string value that labels the current element. See related aria-labelledby.
    pub aria_label: Option<String>,
    /// Identifies the element (or elements) that labels the current element. See related aria-label and aria-describedby.
    pub aria_labelled_by_elements: Option<String>,
    /// Indicates that an element will be updated, and describes the types of updates the user agents, assistive technologies, and user can expect from the live region.
    pub aria_live: Option<String>,
    /// Identifies an element (or elements) in order to define a visual, functional, or contextual parent/child relationship between DOM elements where the DOM hierarchy cannot be used to represent the relationship. See related aria-controls.
    pub aria_owns_elements: Option<String>,
    /// Indicates what notifications the user agent will trigger when the accessibility tree within a live region is modified. See related aria-atomic.
    pub aria_relevant: Option<String>,
    /// Defines a human-readable, author-localized description for the role of an element.
    pub aria_role_description: Option<String>,
}

impl Audio {
    /// Whether this element kind is void, that is, has no closing tag.
    pub fn is_void(&self) -> (r: bool)
        ensures
            r == false,
    {
        false
    }

    /// The declared attribute fields, in markup order.
    pub open spec fn field_list(&self) -> Seq<Field> {
        seq![
            Field { name: "src", value: FieldValue::Text(self.src) },
            Field { name: "crossorigin", value: FieldValue::Text(self.crossorigin) },
            Field { name: "preload", value: FieldValue::Text(self.preload) },
            Field { name: "autoplay", value: FieldValue::Text(self.autoplay) },
            Field { name: "loop", value: FieldValue::Text(self.loop_) },
            Field { name: "muted", value: FieldValue::Text(self.muted) },
            Field { name: "controls", value: FieldValue::Text(self.controls) },
            Field { name: "role", value: FieldValue::Text(self.role) },
            Field { name: "aria-activedescendant", value: FieldValue::Text(self.aria_active_descendant_element) },
            Field { name: "aria-atomic", value: FieldValue::Flag(self.aria_atomic) },
            Field { name: "aria-braillelabel", value: FieldValue::Text(self.aria_braille_label) },
            Field { name: "aria-brailleroledescription", value: FieldValue::Text(self.aria_braille_role_description) },
            Field { name: "aria-busy", value: FieldValue::Flag(self.aria_busy) },
            Field { name: "aria-controls", value: FieldValue::Text(self.aria_controls_elements) },
            Field { name: "aria-current", value: FieldValue::Text(self.aria_current) },
            Field { name: "aria-describedby", value: FieldValue::Text(self.aria_described_by_elements) },
            Field { name: "aria-description", value: FieldValue::Text(self.aria_description) },
            Field { name: "aria-details", value: FieldValue::Text(self.aria_details_elements) },
            Field { name: "aria-disabled", value: FieldValue::Flag(self.aria_disabled) },
            Field { name: "aria-dropeffect", value: FieldValue::Text(self.aria_drop_effect) },
            Field { name: "aria-errormessage", value: FieldValue::Text(self.aria_error_message_elements) },
            Field { name: "aria-expanded", value: FieldValue::Flag(self.aria_expanded) },
            Field { name: "aria-flowto", value: FieldValue::Text(self.aria_flow_to_elements) },
            Field { name: "aria-grabbed", value: FieldValue::Flag(self.aria_grabbed) },
            Field { name: "aria-haspopup", value: FieldValue::Text(self.aria_has_popup) },
            Field { name: "aria-hidden", value: FieldValue::Flag(self.aria_hidden) },
            Field { name: "aria-invalid", value: FieldValue::Text(self.aria_invalid) },
            Field { name: "aria-keyshortcuts", value: FieldValue::Text(self.aria_key_shortcuts) },
            Field { name: "aria-label", value: FieldValue::Text(self.aria_label) },
            Field { name: "aria-labelledby", value: FieldValue::Text(self.aria_labelled_by_elements) },
            Field { name: "aria-live", value: FieldValue::Text(self.aria_live) },
            Field { name: "aria-owns", value: FieldValue::Text(self.aria_owns_elements) },
            Field { name: "aria-relevant", value: FieldValue::Text(self.aria_relevant) },
            Field { name: "aria-roledescription", value: FieldValue::Text(self.aria_role_description) },
        ]
    }

    /// The declared attribute fields with their current values.
    #[verifier::rlimit(40)]
    pub fn fields(&self) -> (r: Vec<Field>)
        ensures
            r@ == self.field_list(),
    {
        let mut r: Vec<Field> = Vec::new();
        r.push(Field::text("src", &self.src));
        r.push(Field::text("crossorigin", &self.crossorigin));
        r.push(Field::text("preload", &self.preload));
        r.push(Field::text("autoplay", &self.autoplay));
        r.push(Field::text("loop", &self.loop_));
        r.push(Field::text("muted", &self.muted));
        r.push(Field::text("controls", &self.controls));
        r.push(Field::text("role", &self.role));
        r.push(Field::text("aria-activedescendant", &self.aria_active_descendant_element));
        r.push(Field::flag("aria-atomic", self.aria_atomic));
        r.push(Field::text("aria-braillelabel", &self.aria_braille_label));
        r.push(Field::text("aria-brailleroledescription", &self.aria_braille_role_description));
        r.push(Field::flag("aria-busy", self.aria_busy));
        r.push(Field::text("aria-controls", &self.aria_controls_elements));
        r.push(Field::text("aria-current", &self.aria_current));
        r.push(Field::text("aria-describedby", &self.aria_described_by_elements));
        r.push(Field::text("aria-description", &self.aria_description));
        r.push(Field::text("aria-details", &self.aria_details_elements));
        r.push(Field::flag("aria-disabled", self.aria_disabled));
        r.push(Field::text("aria-dropeffect", &self.aria_drop_effect));
        r.push(Field::text("aria-errormessage", &self.aria_error_message_elements));
        r.push(Field::flag("aria-expanded", self.aria_expanded));
        r.push(Field::text("aria-flowto", &self.aria_flow_to_elements));
        r.push(Field::flag("aria-grabbed", self.aria_grabbed));
        r.push(Field::text("aria-haspopup", &self.aria_has_popup));
        r.push(Field::flag("aria-hidden", self.aria_hidden));
        r.push(Field::text("aria-invalid", &self.aria_invalid));
        r.push(Field::text("aria-keyshortcuts", &self.aria_key_shortcuts));
        r.push(Field::text("aria-label", &self.aria_label));
        r.push(Field::text("aria-labelledby", &self.aria_labelled_by_elements));
        r.push(Field::text("aria-live", &self.aria_live));
        r.push(Field::text("aria-owns", &self.aria_owns_elements));
        r.push(Field::text("aria-relevant", &self.aria_relevant));
        r.push(Field::text("aria-roledescription", &self.aria_role_description));
        r
    }

    /// The markup of the opening tag.
    pub open spec fn opening_markup(&self) -> Seq<char> {
        opening_tag_markup("audio"@, self.field_list(), self.global_attrs.field_list(), self.data_map@)
    }

    /// The markup of the closing tag.
    pub open spec fn closing_markup(&self) -> Seq<char> {
        closing_tag_markup("audio"@, false)
    }

    /// Appends the opening tag.
    pub fn write_opening_tag(&self, writer: &mut String)
        ensures
            final(writer)@ == old(writer)@ + self.opening_markup(),
    {
        let fields = self.fields();
        write_opening_tag(writer, "audio", &fields, &self.global_attrs, &self.data_map);
    }

    /// Appends the closing tag.
    pub fn write_closing_tag(&self, writer: &mut String)
        ensures
            final(writer)@ == old(writer)@ + self.closing_markup(),
    {
        write_closing_tag(writer, "audio", false);
    }

    /// The markup of the whole element.
    pub open spec fn markup(&self) -> Seq<char> {
        self.opening_markup() + self.closing_markup()
    }

    /// The markup of the element: its opening tag, its children if it has
    /// any, then its closing tag.
    pub fn to_string(&self) -> (r: String)
        ensures
            r@ == self.markup(),
    {
        let mut r = String::new();
        self.write_opening_tag(&mut r);
        self.write_closing_tag(&mut r);
        assert(r@ =~= self.markup());
        r
    }

    /// The global attributes.
    pub fn global_attributes(&self) -> (r: &GlobalAttributes)
        ensures
            *r == self.global_attrs,
    {
        &self.global_attrs
    }

    /// The global attributes, for changing them in place.
    pub fn global_attributes_mut(&mut self) -> (r: &mut GlobalAttributes)
        ensures
            *r == old(self).global_attrs,
            *final(self) == (Audio { global_attrs: *final(r), ..*old(self) }),
    {
        &mut self.global_attrs
    }
}

impl HtmlElement for Audio {
    open spec fn spec_markup(&self) -> Seq<char> {
        self.markup()
    }

    open spec fn spec_tag_name(&self) -> Seq<char> {
        "audio"@
    }

    open spec fn spec_children(&self) -> Seq<Node> {
        Seq::empty()
    }

    open spec fn spec_attributes(&self) -> Seq<(Seq<char>, Seq<char>)> {
        field_pairs(self.field_list()) + field_pairs(self.global_attrs.field_list())
    }

    open spec fn spec_data(&self) -> Seq<(Seq<char>, Seq<char>)> {
        self.data_map@
    }

    fn attributes(&self) -> (r: Vec<(String, String)>) {
        let fields = self.fields();
        collect_attributes(&fields, &self.global_attrs)
    }

    fn data(&self) -> (r: &DataMap) {
        &self.data_map
    }

    fn tag_name(&self) -> (r: &'static str) {
        "audio"
    }

    fn to_html(&self) -> (r: String) {
        self.to_string()
    }

    fn children(&self) -> (r: Vec<Node>) {
        Vec::new()
    }
}

/// The HTML `<iframe>` element
#[derive(Debug, Clone, PartialEq, Default)]
pub struct Iframe {
    /// The `data-*` attributes.
    pub data_map: DataMap,
    /// The attributes that every element kind has.
    pub global_attrs: GlobalAttributes,
    /// Address of the resource
    pub src: Option<String>,
    /// A document to render in the iframe
    pub srcdoc: Option<String>,
    /// Name of content navigable
    pub name: Option<String>,
    /// Security rules for nested content
    pub sandbox: Option<String>,
    /// Permissions policy to be applied to the iframe's contents
    pub allow: Option<String>,
    /// Whether to allow the iframe's contents to use requestFullscreen()
    pub allowfullscreen: Option<String>,
    /// Horizontal dimension
    pub width: Option<String>,
    /// Vertical dimension
    pub height: Option<String>,
    /// Referrer policy for fetches initiated by the element
    pub referrerpolicy: Option<String>,
    /// Used when determining loading deferral
    pub loading: Option<String>,
}

impl Iframe {
    /// Whether this element kind is void, that is, has no closing tag.
    pub fn is_void(&self) -> (r: bool)
        ensures
            r == false,
    {
        false
    }

    /// The declared attribute fields, in markup order.
    pub open spec fn field_list(&self) -> Seq<Field> {
        seq![
            Field { name: "src", value: FieldValue::Text(self.src) },
            Field { name: "srcdoc", value: FieldValue::Text(self.srcdoc) },
            Field { name: "name", value: FieldValue::Text(self.name) },
            Field { name: "sandbox", value: FieldValue::Text(self.sandbox) },
            Field { name: "allow", value: FieldValue::Text(self.allow) },
            Field { name: "allowfullscreen", value: FieldValue::Text(self.allowfullscreen) },
            Field { name: "width", value: FieldValue::Text(self.width) },
            Field { name: "height", value: FieldValue::Text(self.height) },
            Field { name: "referrerpolicy", value: FieldValue::Text(self.referrerpolicy) },
            Field { name: "loading", value: FieldValue::Text(self.loading) },
        ]
    }

    /// The declared attribute fields with their current values.
    pub fn fields(&self) -> (r: Vec<Field>)
        ensures
            r@ == self.field_list(),
    {
        let mut r: Vec<Field> = Vec::new();
        r.push(Field::text("src", &self.src));
        r.push(Field::text("srcdoc", &self.srcdoc));
        r.push(Field::text("name", &self.name));
        r.push(Field::text("sandbox", &self.sandbox));
        r.push(Field::text("allow", &self.allow));
        r.push(Field::text("allowfullscreen", &self.allowfullscreen));
        r.push(Field::text("width", &self.width));
        r.push(Field::text("height", &self.height));
        r.push(Field::text("referrerpolicy", &self.referrerpolicy));
        r.push(Field::text("loading", &self.loading));
        r
    }

    /// The markup of the opening tag.
    pub open spec fn opening_markup(&self) -> Seq<char> {
        opening_tag_markup("iframe"@, self.field_list(), self.global_attrs.field_list(), self.data_map@)
    }

    /// The markup of the closing tag.
    pub open spec fn closing_markup(&self) -> Seq<char> {
        closing_tag_markup("iframe"@, false)
    }

    /// Appends the opening tag.
    pub fn write_opening_tag(&self, writer: &mut String)
        ensures
            final(writer)@ == old(writer)@ + self.opening_markup(),
    {
        let fields = self.fields();
        write_opening_tag(writer, "iframe", &fields, &self.global_attrs, &self.data_map);
    }

    /// Appends the closing tag.
    pub fn write_closing_tag(&self, writer: &mut String)
        ensures
            final(writer)@ == old(writer)@ + self.closing_markup(),
    {
        write_closing_tag(writer, "iframe", false);
    }

    /// The markup of the whole element.
    pub open spec fn markup(&self) -> Seq<char> {
        self.opening_markup() + self.closing_markup()
    }

    /// The markup of the element: its opening tag, its children if it has
    /// any, then its closing tag.
    pub fn to_string(&self) -> (r: String)
        ensures
            r@ == self.markup(),
    {
        let mut r = String::new();
        self.write_opening_tag(&mut r);
        self.write_closing_tag(&mut r);
        assert(r@ =~= self.markup());
        r
    }

    /// The global attributes.
    pub fn global_attributes(&self) -> (r: &GlobalAttributes)
        ensures
            *r == self.global_attrs,
    {
        &self.global_attrs
    }

    /// The global attributes, for changing them in place.
    pub fn global_attributes_mut(&mut self) -> (r: &mut GlobalAttributes)
        ensures
            *r == old(self).global_attrs,
            *final(self) == (Iframe { global_attrs: *final(r), ..*old(self) }),
    {
        &mut self.global_attrs
    }
}

impl HtmlElement for Iframe {
    open spec fn spec_markup(&self) -> Seq<char> {
        self.markup()
    }

    open spec fn spec_tag_name(&self) -> Seq<char> {
        "iframe"@
    }

    open spec fn spec_children(&self) -> Seq<Node> {
        Seq::empty()
    }

    open spec fn spec_attributes(&self) -> Seq<(Seq<char>, Seq<char>)> {
        field_pairs(self.field_list()) + field_pairs(self.global_attrs.field_list())
    }

    open spec fn spec_data(&self) -> Seq<(Seq<char>, Seq<char>)> {
        self.data_map@
    }

    fn attributes(&self) -> (r: Vec<(String, String)>) {
        let fields = self.fields();
        collect_attributes(&fields, &self.global_attrs)
    }

    fn data(&self) -> (r: &DataMap) {
        &self.data_map
    }

    fn tag_name(&self) -> (r: &'static str) {
        "iframe"
    }

    fn to_html(&self) -> (r: String) {
        self.to_string()
    }

    fn children(&self) -> (r: Vec<Node>) {
        Vec::new()
    }
}

/// The HTML `<img>` element
#[derive(Debug, Clone, PartialEq, Default)]
pub struct Image {
    /// The `data-*` attributes.
    pub data_map: DataMap,
    /// The attributes that every element kind has.
    pub global_attrs: GlobalAttributes,
    /// Replacement text for use when images are not available
    pub alt: Option<String>,
    /// Address of the resource
    pub src: Option<String>,
    /// Images to use in different situations, e.g., high-resolution displays, small monitors, etc.
    pub srcset: Option<String>,
    /// Image sizes for different page layouts
    pub sizes: Option<String>,
    /// How the element handles crossorigin requests
    pub crossorigin: Option<String>,
    /// Name of image map to use
    pub usemap: Option<String>,
    /// Whether the image is a server-side image map
    pub ismap: Option<String>,
    /// Horizontal dimension
    pub width: Option<String>,
    /// Vertical dimension
    pub height: Option<String>,
    /// Referrer policy for fetches initiated by the element
    pub referrerpolicy: Option<String>,
    /// Decoding hint to use when processing this image for presentation
    pub decoding: Option<String>,
    /// Used when determining loading deferral
    pub loading: Option<String>,
    /// Sets the priority for fetches initiated by the element
    pub fetchpriority: Option<String>,
}

impl Image {
    /// Whether this element kind is void, that is, has no closing tag.
    pub fn is_void(&self) -> (r: bool)
        ensures
            r == true,
    {
        true
    }

    /// The declared attribute fields, in markup order.
    pub open spec fn field_list(&self) -> Seq<Field> {
        seq![
            Field { name: "alt", value: FieldValue::Text(self.alt) },
            Field { name: "src", value: FieldValue::Text(self.src) },
            Field { name: "srcset", value: FieldValue::Text(self.srcset) },
            Field { name: "sizes", value: FieldValue::Text(self.sizes) },
            Field { name: "crossorigin", value: FieldValue::Text(self.crossorigin) },
            Field { name: "usemap", value: FieldValue::Text(self.usemap) },
            Field { name: "ismap", value: FieldValue::Text(self.ismap) },
            Field { name: "width", value: FieldValue::Text(self.width) },
            Field { name: "height", value: FieldValue::Text(self.height) },
            Field { name: "referrerpolicy", value: FieldValue::Text(self.referrerpolicy) },
            Field { name: "decoding", value: FieldValue::Text(self.decoding) },
            Field { name: "loading", value: FieldValue::Text(self.loading) },
            Field { name: "fetchpriority", value: FieldValue::Text(self.fetchpriority) },
        ]
    }

    /// The declared attribute fields with their current values.
    pub fn fields(&self) -> (r: Vec<Field>)
        ensures
            r@ == self.field_list(),
    {
        let mut r: Vec<Field> = Vec::new();
        r.push(Field::text("alt", &self.alt));
        r.push(Field::text("src", &self.src));
        r.push(Field::text("srcset", &self.srcset));
        r.push(Field::text("sizes", &self.sizes));
        r.push(Field::text("crossorigin", &self.crossorigin));
        r.push(Field::text("usemap", &self.usemap));
        r.push(Field::text("ismap", &self.ismap));
        r.push(Field::text("width", &self.width));
        r.push(Field::text("height", &self.height));
        r.push(Field::text("referrerpolicy", &self.referrerpolicy));
        r.push(Field::text("decoding", &self.decoding));
        r.push(Field::text("loading", &self.loading));
        r.push(Field::text("fetchpriority", &self.fetchpriority));
        r
    }

    /// The markup of the opening tag.
    pub open spec fn opening_markup(&self) -> Seq<char> {
        opening_tag_markup("img"@, self.field_list(), self.global_attrs.field_list(), self.data_map@)
    }

    /// The markup of the closing tag.
    pub open spec fn closing_markup(&self) -> Seq<char> {
        closing_tag_markup("img"@, true)
    }

    /// Appends the opening tag.
    pub fn write_opening_tag(&self, writer: &mut String)
        ensures
            final(writer)@ == old(writer)@ + self.opening_markup(),
    {
        let fields = self.fields();
        write_opening_tag(writer, "img", &fields, &self.global_attrs, &self.data_map);
    }

    /// Appends the closing tag.
    pub fn write_closing_tag(&self, writer: &mut String)
        ensures
            final(writer)@ == old(writer)@ + self.closing_markup(),
    {
        write_closing_tag(writer, "img", true);
    }

    /// The markup of the whole element.
    pub open spec fn markup(&self) -> Seq<char> {
        self.opening_markup() + self.closing_markup()
    }

    /// The markup of the element: its opening tag, its children if it has
    /// any, then its closing tag.
    pub fn to_string(&self) -> (r: String)
        ensures
            r@ == self.markup(),
    {
        let mut r = String::new();
        self.write_opening_tag(&mut r);
        self.write_closing_tag(&mut r);
        assert(r@ =~= self.markup());
        r
    }

    /// The global attributes.
    pub fn global_attributes(&self) -> (r: &GlobalAttributes)
        ensures
            *r == self.global_attrs,
    {
        &self.global_attrs
    }

    /// The global attributes, for changing them in place.
    pub fn global_attributes_mut(&mut self) -> (r: &mut GlobalAttributes)
        ensures
            *r == old(self).global_attrs,
            *final(self) == (Image { global_attrs: *final(r), ..*old(self) }),
    {
        &mut self.global_attrs
    }
}

impl HtmlElement for Image {
    open spec fn spec_markup(&self) -> Seq<char> {
        self.markup()
    }

    open spec fn spec_tag_name(&self) -> Seq<char> {
        "img"@
    }

    open spec fn spec_children(&self) -> Seq<Node> {
        Seq::empty()
    }

    open spec fn spec_attributes(&self) -> Seq<(Seq<char>, Seq<char>)> {
        field_pairs(self.field_list()) + field_pairs(self.global_attrs.field_list())
    }

    open spec fn spec_data(&self) -> Seq<(Seq<char>, Seq<char>)> {
        self.data_map@
    }

    fn attributes(&self) -> (r: Vec<(String, String)>) {
        let fields = self.fields();
        collect_attributes(&fields, &self.global_attrs)
    }

    fn data(&self) -> (r: &DataMap) {
        &self.data_map
    }

    fn tag_name(&self) -> (r: &'static str) {
        "img"
    }

    fn to_html(&self) -> (r: String) {
        self.to_string()
    }

    fn children(&self) -> (r: Vec<Node>) {
        Vec::new()
    }
}

/// The HTML `<map>` element
#[derive(Debug, Clone, PartialEq, Default)]
pub struct ImageMap {
    /// The `data-*` attributes.
    pub data_map: DataMap,
    /// The attributes that every element kind has.
    pub global_attrs: GlobalAttributes,
    /// Name of image map to reference from the usemap attribute
    pub name: Option<String>,
}

impl ImageMap {
    /// Whether this element kind is void, that is, has no closing tag.
    pub fn is_void(&self) -> (r: bool)
        ensures
            r == false,
    {
        false
    }

    /// The declared attribute fields, in markup order.
    pub open spec fn field_list(&self) -> Seq<Field> {
        seq![
            Field { name: "name", value: FieldValue::Text(self.name) },
        ]
    }

    /// The declared attribute fields with their current values.
    pub fn fields(&self) -> (r: Vec<Field>)
        ensures
            r@ == self.field_list(),
    {
        let mut r: Vec<Field> = Vec::new();
        r.push(Field::text("name", &self.name));
        r
    }

    /// The markup of the opening tag.
    pub open spec fn opening_markup(&self) -> Seq<char> {
        opening_tag_markup("map"@, self.field_list(), self.global_attrs.field_list(), self.data_map@)
    }

    /// The markup of the closing tag.
    pub open spec fn closing_markup(&self) -> Seq<char> {
        closing_tag_markup("map"@, false)
    }

    /// Appends the opening tag.
    pub fn write_opening_tag(&self, writer: &mut String)
        ensures
            final(writer)@ == old(writer)@ + self.opening_markup(),
    {
        let fields = self.fields();
        write_opening_tag(writer, "map", &fields, &self.global_attrs, &self.data_map);
    }

    /// Appends the closing tag.
    pub fn write_closing_tag(&self, writer: &mut String)
        ensures
            final(writer)@ == old(writer)@ + self.closing_markup(),
    {
        write_closing_tag(writer, "map", false);
    }

    /// The markup of the whole element.
    pub open spec fn markup(&self) -> Seq<char> {
        self.opening_markup() + self.closing_markup()
    }

    /// The markup of the element: its opening tag, its children if it has
    /// any, then its closing tag.
    pub fn to_string(&self) -> (r: String)
        ensures
            r@ == self.markup(),
    {
        let mut r = String::new();
        self.write_opening_tag(&mut r);
        self.write_closing_tag(&mut r);
        assert(r@ =~= self.markup());
        r
    }

    /// The global attributes.
    pub fn global_attributes(&self) -> (r: &GlobalAttributes)
        ensures
            *r == self.global_attrs,
    {
        &self.global_attrs
    }

    /// The global attributes, for changing them in place.
    pub fn global_attributes_mut(&mut self) -> (r: &mut GlobalAttributes)
        ensures
            *r == old(self).global_attrs,
            *final(self) == (ImageMap { global_attrs: *final(r), ..*old(self) }),
    {
        &mut self.global_attrs
    }
}

impl HtmlElement for ImageMap {
    open spec fn spec_markup(&self) -> Seq<char> {
        self.markup()
    }

    open spec fn spec_tag_name(&self) -> Seq<char> {
        "map"@
    }

    open spec fn spec_children(&self) -> Seq<Node> {
        Seq::empty()
    }

    open spec fn spec_attributes(&self) -> Seq<(Seq<char>, Seq<char>)> {
        field_pairs(self.field_list()) + field_pairs(self.global_attrs.field_list())
    }

    open spec fn spec_data(&self) -> Seq<(Seq<char>, Seq<char>)> {
        self.data_map@
    }

    fn attributes(&self) -> (r: Vec<(String, String)>) {
        let fields = self.fields();
        collect_attributes(&fields, &self.global_attrs)
    }

    fn data(&self) -> (r: &DataMap) {
        &self.data_map
    }

    fn tag_name(&self) -> (r: &'static str) {
        "map"
    }

    fn to_html(&self) -> (r: String) {
        self.to_string()
    }

    fn children(&self) -> (r: Vec<Node>) {
        Vec::new()
    }
}

/// The HTML `<object>` element
#[derive(Debug, Clone, PartialEq, Default)]
pub struct Object {
    /// The `data-*` attributes.
    pub data_map: DataMap,
    /// The attributes that every element kind has.
    pub global_attrs: GlobalAttributes,
    /// Address of the resource
    pub data: Option<String>,
    /// Type of embedded resource
    pub type_: Option<String>,
    /// Name of content navigable
    pub name: Option<String>,
    /// Associates the element with a form element
    pub form: Option<String>,
    /// Horizontal dimension
    pub width: Option<String>,
    /// Vertical dimension
    pub height: Option<String>,
}

impl Object {
    /// Whether this element kind is void, that is, has no closing tag.
    pub fn is_void(&self) -> (r: bool)
        ensures
            r == false,
    {
        false
    }

    /// The declared attribute fields, in markup order.
    pub open spec fn field_list(&self) -> Seq<Field> {
        seq![
            Field { name: "data", value: FieldValue::Text(self.data) },
            Field { name: "type", value: FieldValue::Text(self.type_) },
            Field { name: "name", value: FieldValue::Text(self.name) },
            Field { name: "form", value: FieldValue::Text(self.form) },
            Field { name: "width", value: FieldValue::Text(self.width) },
            Field { name: "height", value: FieldValue::Text(self.height) },
        ]
    }

    /// The declared attribute fields with their current values.
    pub fn fields(&self) -> (r: Vec<Field>)
        ensures
            r@ == self.field_list(),
    {
        let mut r: Vec<Field> = Vec::new();
        r.push(Field::text("data", &self.data));
        r.push(Field::text("type", &self.type_));
        r.push(Field::text("name", &self.name));
        r.push(Field::text("form", &self.form));
        r.push(Field::text("width", &self.width));
        r.push(Field::text("height", &self.height));
        r
    }

    /// The markup of the opening tag.
    pub open spec fn opening_markup(&self) -> Seq<char> {
        opening_tag_markup("object"@, self.field_list(), self.global_attrs.field_list(), self.data_map@)
    }

    /// The markup of the closing tag.
    pub open spec fn closing_markup(&self) -> Seq<char> {
        closing_tag_markup("object"@, false)
    }

    /// Appends the opening tag.
    pub fn write_opening_tag(&self, writer: &mut String)
        ensures
            final(writer)@ == old(writer)@ + self.opening_markup(),
    {
        let fields = self.fields();
        write_opening_tag(writer, "object", &fields, &self.global_attrs, &self.data_map);
    }

    /// Appends the closing tag.
    pub fn write_closing_tag(&self, writer: &mut String)
        ensures
            final(writer)@ == old(writer)@ + self.closing_markup(),
    {
        write_closing_tag(writer, "object", false);
    }

    /// The markup of the whole element.
    pub open spec fn markup(&self) -> Seq<char> {
        self.opening_markup() + self.closing_markup()
    }

    /// The markup of the element: its opening tag, its children if it has
    /// any, then its closing tag.
    pub fn to_string(&self) -> (r: String)
        ensures
            r@ == self.markup(),
    {
        let mut r = String::new();
        self.write_opening_tag(&mut r);
        self.write_closing_tag(&mut r);
        assert(r@ =~= self.markup());
        r
    }

    /// The global attributes.
    pub fn global_attributes(&self) -> (r: &GlobalAttributes)
        ensures
            *r == self.global_attrs,
    {
        &self.global_attrs
    }

    /// The global attributes, for changing them in place.
    pub fn global_attributes_mut(&mut self) -> (r: &mut GlobalAttributes)
        ensures
            *r == old(self).global_attrs,
            *final(self) == (Object { global_attrs: *final(r), ..*old(self) }),
    {
        &mut self.global_attrs
    }
}

impl HtmlElement for Object {
    open spec fn spec_markup(&self) -> Seq<char> {
        self.markup()
    }

    open spec fn spec_tag_name(&self) -> Seq<char> {
        "object"@
    }

    open spec fn spec_children(&self) -> Seq<Node> {
        Seq::empty()
    }

    open spec fn spec_attributes(&self) -> Seq<(Seq<char>, Seq<char>)> {
        field_pairs(self.field_list()) + field_pairs(self.global_attrs.field_list())
    }

    open spec fn spec_data(&self) -> Seq<(Seq<char>, Seq<char>)> {
        self.data_map@
    }

    fn attributes(&self) -> (r: Vec<(String, String)>) {
        let fields = self.fields();
        collect_attributes(&fields, &self.global_attrs)
    }

    fn data(&self) -> (r: &DataMap) {
        &self.data_map
    }

    fn tag_name(&self) -> (r: &'static str) {
        "object"
    }

    fn to_html(&self) -> (r: String) {
        self.to_string()
    }

    fn children(&self) -> (r: Vec<Node>) {
        Vec::new()
    }
}

/// The HTML `<source>` element
#[derive(Debug, Clone, PartialEq, Default)]
pub struct MediaSource {
    /// The `data-*` attributes.
    pub data_map: DataMap,
    /// The attributes that every element kind has.
    pub global_attrs: GlobalAttributes,
    /// Type of embedded resource
    pub type_: Option<String>,
    /// Applicable media
    pub media: Option<String>,
}

impl MediaSource {
    /// Whether this element kind is void, that is, has no closing tag.
    pub fn is_void(&self) -> (r: bool)
        ensures
            r == true,
    {
        true
    }

    /// The declared attribute fields, in markup order.
    pub open spec fn field_list(&self) -> Seq<Field> {
        seq![
            Field { name: "type", value: FieldValue::Text(self.type_) },
            Field { name: "media", value: FieldValue::Text(self.media) },
        ]
    }

    /// The declared attribute fields with their current values.
    pub fn fields(&self) -> (r: Vec<Field>)
        ensures
            r@ == self.field_list(),
    {
        let mut r: Vec<Field> = Vec::new();
        r.push(Field::text("type", &self.type_));
        r.push(Field::text("media", &self.media));
        r
    }

    /// The markup of the opening tag.
    pub open spec fn opening_markup(&self) -> Seq<char> {
        opening_tag_markup("source"@, self.field_list(), self.global_attrs.field_list(), self.data_map@)
    }

    /// The markup of the closing tag.
    pub open spec fn closing_markup(&self) -> Seq<char> {
        closing_tag_markup("source"@, true)
    }

    /// Appends the opening tag.
    pub fn write_opening_tag(&self, writer: &mut String)
        ensures
            final(writer)@ == old(writer)@ + self.opening_markup(),
    {
        let fields = self.fields();
        write_opening_tag(writer, "source", &fields, &self.global_attrs, &self.data_map);
    }

    /// Appends the closing tag.
    pub fn write_closing_tag(&self, writer: &mut String)
        ensures
            final(writer)@ == old(writer)@ + self.closing_markup(),
    {
        write_closing_tag(writer, "source", true);
    }

    /// The markup of the whole element.
    pub open spec fn markup(&self) -> Seq<char> {
        self.opening_markup() + self.closing_markup()
    }

    /// The markup of the element: its opening tag, its children if it has
    /// any, then its closing tag.
    pub fn to_string(&self) -> (r: String)
        ensures
            r@ == self.markup(),
    {
        let mut r = String::new();
        self.write_opening_tag(&mut r);
        self.write_closing_tag(&mut r);
        assert(r@ =~= self.markup());
        r
    }

    /// The global attributes.
    pub fn global_attributes(&self) -> (r: &GlobalAttributes)
        ensures
            *r == self.global_attrs,
    {
        &self.global_attrs
    }

    /// The global attributes, for changing them in place.
    pub fn global_attributes_mut(&mut self) -> (r: &mut GlobalAttributes)
        ensures
            *r == old(self).global_attrs,
            *final(self) == (MediaSource { global_attrs: *final(r), ..*old(self) }),
    {
        &mut self.global_attrs
    }
}

impl HtmlElement for MediaSource {
    open spec fn spec_markup(&self) -> Seq<char> {
        self.markup()
    }

    open spec fn spec_tag_name(&self) -> Seq<char> {
        "source"@
    }

    open spec fn spec_children(&self) -> Seq<Node> {
        Seq::empty()
    }

    open spec fn spec_attributes(&self) -> Seq<(Seq<char>, Seq<char>)> {
        field_pairs(self.field_list()) + field_pairs(self.global_attrs.field_list())
    }

    open spec fn spec_data(&self) -> Seq<(Seq<char>, Seq<char>)> {
        self.data_map@
    }

    fn attributes(&self) -> (r: Vec<(String, String)>) {
        let fields = self.fields();
        collect_attributes(&fields, &self.global_attrs)
    }

    fn data(&self) -> (r: &DataMap) {
        &self.data_map
    }

    fn tag_name(&self) -> (r: &'static str) {
        "source"
    }

    fn to_html(&self) -> (r: String) {
        self.to_string()
    }

    fn children(&self) -> (r: Vec<Node>) {
        Vec::new()
    }
}

/// The HTML `<video>` element
#[derive(Debug, Clone, PartialEq, Default)]
pub struct Video {
    /// The `data-*` attributes.
    pub data_map: DataMap,
    /// The attributes that every element kind has.
    pub global_attrs: GlobalAttributes,
    /// Address of the resource
    pub src: Option<String>,
    /// How the element handles crossorigin requests
    pub crossorigin: Option<String>,
    /// Poster frame to show prior to video playback
    pub poster: Option<String>,
    /// Hints how much buffering the media resource will likely need
    pub preload: Option<String>,
    /// Hint that the media resource can be started automatically when the page is loaded
    pub autoplay: Option<String>,
    /// Encourage the user agent to display video content within the element's playback area
    pub plays_inline: bool,
    /// Whether to loop the media resource
    pub loop_: Option<String>,
    /// Whether to mute the media resource by default
    pub muted: Option<String>,
    /// Show user agent controls
    pub controls: Option<String>,
    /// Horizontal dimension
    pub width: Option<i64>,
    /// Vertical dimension
    pub height: Option<i64>,
}

impl Video {
    /// Whether this element kind is void, that is, has no closing tag.
    pub fn is_void(&self) -> (r: bool)
        ensures
            r == false,
    {
        false
    }

    /// The declared attribute fields, in markup order.
    pub open spec fn field_list(&self) -> Seq<Field> {
        seq![
            Field { name: "src", value: FieldValue::Text(self.src) },
            Field { name: "crossorigin", value: FieldValue::Text(self.crossorigin) },
            Field { name: "poster", value: FieldValue::Text(self.poster) },
            Field { name: "preload", value: FieldValue::Text(self.preload) },
            Field { name: "autoplay", value: FieldValue::Text(self.autoplay) },
            Field { name: "playsinline", value: FieldValue::Flag(self.plays_inline) },
            Field { name: "loop", value: FieldValue::Text(self.loop_) },
            Field { name: "muted", value: FieldValue::Text(self.muted) },
            Field { name: "controls", value: FieldValue::Text(self.controls) },
            Field { name: "width", value: FieldValue::Number(self.width) },
            Field { name: "height", value: FieldValue::Number(self.height) },
        ]
    }

    /// The declared attribute fields with their current values.
    pub fn fields(&self) -> (r: Vec<Field>)
        ensures
            r@ == self.field_list(),
    {
        let mut r: Vec<Field> = Vec::new();
        r.push(Field::text("src", &self.src));
        r.push(Field::text("crossorigin", &self.crossorigin));
        r.push(Field::text("poster", &self.poster));
        r.push(Field::text("preload", &self.preload));
        r.push(Field::text("autoplay", &self.autoplay));
        r.push(Field::flag("playsinline", self.plays_inline));
        r.push(Field::text("loop", &self.loop_));
        r.push(Field::text("muted", &self.muted));
        r.push(Field::text("controls", &self.controls));
        r.push(Field::number("width", self.width));
        r.push(Field::number("height", self.height));
        r
    }

    /// The markup of the opening tag.
    pub open spec fn opening_markup(&self) -> Seq<char> {
        opening_tag_markup("video"@, self.field_list(), self.global_attrs.field_list(), self.data_map@)
    }

    /// The markup of the closing tag.
    pub open spec fn closing_markup(&self) -> Seq<char> {
        closing_tag_markup("video"@, false)
    }

    /// Appends the opening tag.
    pub fn write_opening_tag(&self, writer: &mut String)
        ensures
            final(writer)@ == old(writer)@ + self.opening_markup(),
    {
        let fields = self.fields();
        write_opening_tag(writer, "video", &fields, &self.global_attrs, &self.data_map);
    }

    /// Appends the closing tag.
    pub fn write_closing_tag(&self, writer: &mut String)
        ensures
            final(writer)@ == old(writer)@ + self.closing_markup(),
    {
        write_closing_tag(writer, "video", false);
    }

    /// The markup of the whole element.
    pub open spec fn markup(&self) -> Seq<char> {
        self.opening_markup() + self.closing_markup()
    }

    /// The markup of the element: its opening tag, its children if it has
    /// any, then its closing tag.
    pub fn to_string(&self) -> (r: String)
        ensures
            r@ == self.markup(),
    {
        let mut r = String::new();
        self.write_opening_tag(&mut r);
        self.write_closing_tag(&mut r);
        assert(r@ =~= self.markup());
        r
    }

    /// The global attributes.
    pub fn global_attributes(&self) -> (r: &GlobalAttributes)
        ensures
            *r == self.global_attrs,
    {
        &self.global_attrs
    }

    /// The global attributes, for changing them in place.
    pub fn global_attributes_mut(&mut self) -> (r: &mut GlobalAttributes)
        ensures
            *r == old(self).global_attrs,
            *final(self) == (Video { global_attrs: *final(r), ..*old(self) }),
    {
        &mut self.global_attrs
    }
}

impl HtmlElement for Video {
    open spec fn spec_markup(&self) -> Seq<char> {
        self.markup()
    }

    open spec fn spec_tag_name(&self) -> Seq<char> {
        "video"@
    }

    open spec fn spec_children(&self) -> Seq<Node> {
        Seq::empty()
    }

    open spec fn spec_attributes(&self) -> Seq<(Seq<char>, Seq<char>)> {
        field_pairs(self.field_list()) + field_pairs(self.global_attrs.field_list())
    }

    open spec fn spec_data(&self) -> Seq<(Seq<char>, Seq<char>)> {
        self.data_map@
    }

    fn attributes(&self) -> (r: Vec<(String, String)>) {
        let fields = self.fields();
        collect_attributes(&fields, &self.global_attrs)
    }

    fn data(&self) -> (r: &DataMap) {
        &self.data_map
    }

    fn tag_name(&self) -> (r: &'static str) {
        "video"
    }

    fn to_html(&self) -> (r: String) {
        self.to_string()
    }

    fn children(&self) -> (r: Vec<Node>) {
        Vec::new()
    }
}

} // verus!
