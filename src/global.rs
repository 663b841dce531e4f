//! The attributes that every element kind has.

use vstd::prelude::*;
use crate::markup::{Field, FieldValue};

verus! {

/// The global attributes of an element: id, class, style, title, lang and
/// the others that every element kind accepts.
#[derive(Debug, Clone, PartialEq, Default)]
pub struct GlobalAttributes {
    /// Keyboard shortcut to activate or focus the element
    pub access_key: Option<String>,
    /// Recommended autocapitalization behavior
    pub auto_capitalize: Option<String>,
    /// Automatically focus the element when the page is loaded
    pub autofocus: bool,
    /// Classes to which the element belongs
    pub class: Option<String>,
    /// Whether the element is editable
    pub content_editable: Option<String>,
    /// The text directionality of the element
    pub direction: Option<String>,
    /// Whether the element is draggable
    pub draggable: bool,
    /// Hint for selecting an enter key action
    pub enter_key_hint: Option<String>,
    /// Shadow parts exported by the element
    pub export_parts: Option<String>,
    /// Whether the element is relevant
    pub hidden: Option<String>,
    /// The element's ID
    pub id: Option<String>,
    /// Whether the element is inert
    pub inert: bool,
    /// Hint for selecting an input modality
    pub input_mode: Option<String>,
    /// Creates a customized built-in element
    pub is_: Option<String>,
    /// Global identifier for a microdata item
    pub item_id: Option<String>,
    /// Property names of a microdata item
    pub item_prop: Option<String>,
    /// Referenced elements
    pub item_ref: Option<String>,
    /// Introduces a microdata item
    pub item_scope: Option<String>,
    /// Item types of a microdata item
    pub item_type: Option<String>,
    /// Language of the element
    pub lang: Option<String>,
    /// Cryptographic nonce used in Content Security Policy checks
    pub nonce: Option<String>,
    /// The element's shadow parts
    pub part: Option<String>,
    /// Makes the element a popover element
    pub popover: Option<String>,
    /// The element's desired slot
    pub slot: Option<String>,
    /// Whether the element is to have its spelling and grammar checked
    pub spellcheck: Option<String>,
    /// Presentational and formatting instructions
    pub style: Option<String>,
    /// Whether the element is focusable and sequentially focusable, and the relative order of the element for the purposes of sequential focus navigation
    pub tab_index: Option<i64>,
    /// Advisory information for the element
    pub title: Option<String>,
    /// Whether the element is to be translated when the page is localized
    pub translate: Option<String>,
}

impl GlobalAttributes {
    /// The global attributes with nothing set.
    pub open spec fn blank() -> GlobalAttributes {
        GlobalAttributes {
            access_key: None,
            auto_capitalize: None,
            autofocus: false,
            class: None,
            content_editable: None,
            direction: None,
            draggable: false,
            enter_key_hint: None,
            export_parts: None,
            hidden: None,
            id: None,
            inert: false,
            input_mode: None,
            is_: None,
            item_id: None,
            item_prop: None,
            item_ref: None,
            item_scope: None,
            item_type: None,
            lang: None,
            nonce: None,
            part: None,
            popover: None,
            slot: None,
            spellcheck: None,
            style: None,
            tab_index: None,
            title: None,
            translate: None,
        }
    }

    /// The global attributes with nothing set.
    pub fn new() -> (r: GlobalAttributes)
        ensures
            r == GlobalAttributes::blank(),
    {
        GlobalAttributes {
            access_key: None,
            auto_capitalize: None,
            autofocus: false,
            class: None,
            content_editable: None,
            direction: None,
            draggable: false,
            enter_key_hint: None,
            export_parts: None,
            hidden: None,
            id: None,
            inert: false,
            input_mode: None,
            is_: None,
            item_id: None,
            item_prop: None,
            item_ref: None,
            item_scope: None,
            item_type: None,
            lang: None,
            nonce: None,
            part: None,
            popover: None,
            slot: None,
            spellcheck: None,
            style: None,
            tab_index: None,
            title: None,
            translate: None,
        }
    }

    /// The declared attribute fields, in markup order.
    pub open spec fn field_list(&self) -> Seq<Field> {
        seq![
            Field { name: "accesskey", value: FieldValue::Text(self.access_key) },
            Field { name: "autocapitalize", value: FieldValue::Text(self.auto_capitalize) },
            Field { name: "autofocus", value: FieldValue::Flag(self.autofocus) },
            Field { name: "class", value: FieldValue::Text(self.class) },
            Field { name: "contenteditable", value: FieldValue::Text(self.content_editable) },
            Field { name: "dir", value: FieldValue::Text(self.direction) },
            Field { name: "draggable", value: FieldValue::Flag(self.draggable) },
            Field { name: "enterkeyhint", value: FieldValue::Text(self.enter_key_hint) },
            Field { name: "exportparts", value: FieldValue::Text(self.export_parts) },
            Field { name: "hidden", value: FieldValue::Text(self.hidden) },
            Field { name: "id", value: FieldValue::Text(self.id) },
            Field { name: "inert", value: FieldValue::Flag(self.inert) },
            Field { name: "inputmode", value: FieldValue::Text(self.input_mode) },
            Field { name: "is", value: FieldValue::Text(self.is_) },
            Field { name: "itemid", value: FieldValue::Text(self.item_id) },
            Field { name: "itemprop", value: FieldValue::Text(self.item_prop) },
            Field { name: "itemref", value: FieldValue::Text(self.item_ref) },
            Field { name: "itemscope", value: FieldValue::Text(self.item_scope) },
            Field { name: "itemtype", value: FieldValue::Text(self.item_type) },
            Field { name: "lang", value: FieldValue::Text(self.lang) },
            Field { name: "nonce", value: FieldValue::Text(self.nonce) },
            Field { name: "part", value: FieldValue::Text(self.part) },
            Field { name: "popover", value: FieldValue::Text(self.popover) },
            Field { name: "slot", value: FieldValue::Text(self.slot) },
            Field { name: "spellcheck", value: FieldValue::Text(self.spellcheck) },
            Field { name: "style", value: FieldValue::Text(self.style) },
            Field { name: "tabindex", value: FieldValue::Number(self.tab_index) },
            Field { name: "title", value: FieldValue::Text(self.title) },
            Field { name: "translate", value: FieldValue::Text(self.translate) },
        ]
    }

    /// The declared attribute fields with their current values.
    #[verifier::rlimit(40)]
    pub fn fields(&self) -> (r: Vec<Field>)
        ensures
            r@ == self.field_list(),
    {
        let mut r: Vec<Field> = Vec::new();
        r.push(Field::text("accesskey", &self.access_key));
        r.push(Field::text("autocapitalize", &self.auto_capitalize));
        r.push(Field::flag("autofocus", self.autofocus));
        r.push(Field::text("class", &self.class));
        r.push(Field::text("contenteditable", &self.content_editable));
        r.push(Field::text("dir", &self.direction));
        r.push(Field::flag("draggable", self.draggable));
        r.push(Field::text("enterkeyhint", &self.enter_key_hint));
        r.push(Field::text("exportparts", &self.export_parts));
        r.push(Field::text("hidden", &self.hidden));
        r.push(Field::text("id", &self.id));
        r.push(Field::flag("inert", self.inert));
        r.push(Field::text("inputmode", &self.input_mode));
        r.push(Field::text("is", &self.is_));
        r.push(Field::text("itemid", &self.item_id));
        r.push(Field::text("itemprop", &self.item_prop));
        r.push(Field::text("itemref", &self.item_ref));
        r.push(Field::text("itemscope", &self.item_scope));
        r.push(Field::text("itemtype", &self.item_type));
        r.push(Field::text("lang", &self.lang));
        r.push(Field::text("nonce", &self.nonce));
        r.push(Field::text("part", &self.part));
        r.push(Field::text("popover", &self.popover));
        r.push(Field::text("slot", &self.slot));
        r.push(Field::text("spellcheck", &self.spellcheck));
        r.push(Field::text("style", &self.style));
        r.push(Field::number("tabindex", self.tab_index));
        r.push(Field::text("title", &self.title));
        r.push(Field::text("translate", &self.translate));
        r
    }

}

} // verus!
