//! Typed HTML elements with a verified rendering contract, a parser for
//! element descriptions, and the expansion of a description into an
//! implementation of `ToHtmlElement`.
//!
//! Every element kind renders through one contract: `<tag`, its own
//! attribute fields in declaration order, the global attributes, the
//! dataset, `>`, its children for a container, and `</tag>` unless the
//! kind is void. Attribute values and text are escaped.

pub mod dataset;
pub mod description;
pub mod element;
pub mod embedded;
pub mod expand;
pub mod forms;
pub mod global;
pub mod lexer;
pub mod login;
pub mod markup;
pub mod metadata;
pub mod scripting;
pub mod sections;
pub mod source;
pub mod tables;
pub mod text;
pub mod text_content;

pub use dataset::DataMap;
pub use description::{Assignment, ElementDescription, ParseError};
pub use element::{HtmlElement, Node, Render, ToHtmlElement};
pub use expand::{
    expand_derive_to_html_element, find_element_description, parse_data, parse_fields, BuilderCall, DataShape,
    DeriveTarget, ExpandError,
};
pub use global::GlobalAttributes;
pub use login::{add, Login};
