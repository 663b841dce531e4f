use html::description::ElementDescription;
use html::{
    expand_derive_to_html_element, find_element_description, BuilderCall, DataShape, DeriveTarget, ExpandError,
    ParseError,
};

fn words(xs: &[&str]) -> Vec<String> {
    xs.iter().map(|x| x.to_string()).collect()
}

#[test]
fn parse_keeps_keys_and_values_in_order() {
    let d = ElementDescription::parse(r#"tag(key1 = "v1", key2 = "v2")"#).unwrap();
    assert_eq!(d.tag, words(&["tag"]));
    assert_eq!(d.attributes.len(), 2);
    assert_eq!(d.attributes[0].key, words(&["key1"]));
    assert_eq!(d.attributes[0].value, r#""v1""#);
    assert_eq!(d.attributes[1].key, words(&["key2"]));
    assert_eq!(d.attributes[1].value, r#""v2""#);
}

#[test]
fn parse_takes_any_expression_as_value() {
    let d = ElementDescription::parse("T(a = -1, b = 2)").unwrap();
    assert_eq!(d.attributes[0].value, "-1");
    assert_eq!(d.attributes[1].value, "2");
    let d = ElementDescription::parse(
        r#"input(value = self.email.clone(), size = a + b, list = vec![1, 2], f = f(x, y), s = "a\"b", c = ',')"#,
    )
    .unwrap();
    let values: Vec<&str> = d.attributes.iter().map(|a| a.value.as_str()).collect();
    assert_eq!(
        values,
        vec!["self.email.clone()", "a + b", "vec![1, 2]", "f(x, y)", r#""a\"b""#, "','"]
    );
}

#[test]
fn parse_ignores_white_space_between_tokens() {
    let a = ElementDescription::parse(r#"html :: text_content :: Division ( class = "hello" , data :: subject = "stranger" )"#)
        .unwrap();
    let b = ElementDescription::parse(r#"html::text_content::Division(class="hello",data::subject="stranger")"#).unwrap();
    assert_eq!(a, b);
    assert_eq!(a.tag, words(&["html", "text_content", "Division"]));
    assert_eq!(a.attributes[1].key, words(&["data", "subject"]));
}

#[test]
fn parse_path_with_leading_separator() {
    let d = ElementDescription::parse("::html::text_content::Division").unwrap();
    assert_eq!(d.tag, words(&["", "html", "text_content", "Division"]));
    assert!(d.attributes.is_empty());
    assert_eq!(d.to_source(), "::html::text_content::Division");
}

#[test]
fn parse_bare_tag_has_no_attributes() {
    let d = ElementDescription::parse("division").unwrap();
    assert_eq!(d.tag, words(&["division"]));
    assert!(d.attributes.is_empty());
}

#[test]
fn parse_errors_give_their_position() {
    assert_eq!(ElementDescription::parse(r#"div(class = "x)"#), Err(ParseError::UnexpectedCharacter(12)));
    assert_eq!(ElementDescription::parse("div("), Err(ParseError::UnexpectedToken(2)));
    assert_eq!(ElementDescription::parse("div()"), Err(ParseError::UnexpectedToken(2)));
    assert_eq!(ElementDescription::parse(r#"div(a = "1",)"#), Err(ParseError::UnexpectedToken(6)));
    assert_eq!(ElementDescription::parse(r#"div(a = "1") extra"#), Err(ParseError::UnexpectedToken(6)));
    assert_eq!(ElementDescription::parse(""), Err(ParseError::UnexpectedToken(0)));
    assert_eq!(ElementDescription::parse("div(a = )"), Err(ParseError::UnexpectedToken(4)));
    assert_eq!(ElementDescription::parse("div(a = (1)"), Err(ParseError::UnexpectedToken(7)));
    assert_eq!(ElementDescription::parse("div(a = ])"), Err(ParseError::UnexpectedToken(4)));
}

fn target(attrs: &[(&str, &str)], fields: &[&str]) -> DeriveTarget {
    DeriveTarget {
        ident: "DefaultToDiv".to_string(),
        shape: DataShape::Struct(words(fields)),
        attrs: attrs.iter().map(|(a, b)| (a.to_string(), b.to_string())).collect(),
    }
}

#[test]
fn expansion_routes_data_keys_to_dataset() {
    let t = target(
        &[("html_element", r#"html::text_content::Division(class = "hello", data::subject = "stranger")"#)],
        &["child"],
    );
    let code = expand_derive_to_html_element(&t).unwrap();
    assert_eq!(
        code,
        "impl ::html::ToHtmlElement for DefaultToDiv { type Element = html::text_content::Division; \
         fn to_html_element(&self) -> Self::Element { <Self::Element>::builder()\
         .class(\"hello\").data(\"subject\", \"stranger\").push(::html::Node::text(&self.child)).build() } }"
    );
    assert!(!code.contains("data::subject"));
}

#[test]
fn expansion_passes_expressions_through() {
    let t = target(&[("html_element", "T(a = -1, b = 2)")], &[]);
    let code = expand_derive_to_html_element(&t).unwrap();
    assert!(code.contains("<Self::Element>::builder().a(-1).b(2).build()"));
    let t = target(&[("html_element", "::html::forms::Input(value = self.email.clone())")], &[]);
    let code = expand_derive_to_html_element(&t).unwrap();
    assert!(code.contains("type Element = ::html::forms::Input;"));
    assert!(code.contains(".value(self.email.clone())"));
}

#[test]
fn expansion_without_description_uses_division() {
    let t = target(&[("derive", "Debug")], &[]);
    let code = expand_derive_to_html_element(&t).unwrap();
    assert_eq!(
        code,
        "impl ::html::ToHtmlElement for DefaultToDiv { type Element = html::text_content::Division; \
         fn to_html_element(&self) -> Self::Element { <Self::Element>::builder().build() } }"
    );
}

#[test]
fn builder_calls_in_source_order() {
    let d = ElementDescription::parse(r#"division(class = "hello", data::subject = "stranger")"#).unwrap();
    let calls = html::expand::builder_calls(&d).unwrap();
    assert_eq!(
        calls,
        vec![
            BuilderCall::Method {
                name: "class".to_string(),
                value: "\"hello\"".to_string()
            },
            BuilderCall::Data {
                key: "subject".to_string(),
                value: "\"stranger\"".to_string()
            },
        ]
    );
}

#[test]
fn duplicate_description_is_rejected() {
    let t = target(
        &[
            ("html_element", "division"),
            ("allow", "dead_code"),
            ("html_element", "form"),
        ],
        &[],
    );
    assert_eq!(expand_derive_to_html_element(&t), Err(ExpandError::DuplicateDescription(2)));
    assert_eq!(find_element_description(&t.attrs), Err(ExpandError::DuplicateDescription(2)));
}

#[test]
fn unsupported_keys_and_shapes_are_rejected() {
    let t = target(&[("html_element", r#"division(class = "a", aria::label = "b")"#)], &[]);
    assert_eq!(expand_derive_to_html_element(&t), Err(ExpandError::UnsupportedKey(1)));
    let t = target(&[("html_element", r#"division(a::b::c = 1)"#)], &[]);
    assert_eq!(expand_derive_to_html_element(&t), Err(ExpandError::UnsupportedKey(0)));
    let mut e = target(&[], &[]);
    e.shape = DataShape::Enum;
    assert_eq!(expand_derive_to_html_element(&e), Err(ExpandError::EnumNotSupported));
    e.shape = DataShape::Union;
    assert_eq!(expand_derive_to_html_element(&e), Err(ExpandError::UnionNotSupported));
    let t = target(&[("html_element", "division(")], &[]);
    assert_eq!(
        expand_derive_to_html_element(&t),
        Err(ExpandError::Parse(ParseError::UnexpectedToken(2)))
    );
}

#[test]
fn find_description_absent_and_present() {
    assert_eq!(find_element_description(&vec![]), Ok(None));
    let found = find_element_description(&vec![("html_element".to_string(), "form(method = \"post\")".to_string())])
        .unwrap()
        .unwrap();
    assert_eq!(found.tag, words(&["form"]));
    assert_eq!(found.attributes[0].key, words(&["method"]));
}

#[test]
fn source_round_trip_keeps_keys_and_values() {
    let text = r#"tag(key1 = "v1", key2 = "v2")"#;
    let d = ElementDescription::parse(text).unwrap();
    let source = d.to_source();
    assert_eq!(source, text);
    assert_eq!(ElementDescription::parse(&source), Ok(d));
}

#[test]
fn source_round_trip_with_paths_and_expressions() {
    let d = ElementDescription::parse(r#"html::forms::Input(data::id = 7, kind = a::B, value = f(x, [1, 2]))"#).unwrap();
    let source = d.to_source();
    assert_eq!(source, r#"html::forms::Input(data::id = 7, kind = a::B, value = f(x, [1, 2]))"#);
    assert_eq!(ElementDescription::parse(&source).unwrap(), d);
    let bare = ElementDescription::parse("division").unwrap();
    assert_eq!(bare.to_source(), "division");
}

#[test]
fn parse_tag_with_generic_arguments() {
    let d = ElementDescription::parse(r#"html::Wrapper<Division>(class = "x")"#).unwrap();
    assert_eq!(d.tag, words(&["html", "Wrapper<Division>"]));
    assert_eq!(d.attributes[0].value, r#""x""#);
    assert_eq!(ElementDescription::parse(&d.to_source()).unwrap(), d);
    let nested = ElementDescription::parse("Outer<Vec<u8>, (A, B)>").unwrap();
    assert_eq!(nested.tag, words(&["Outer<Vec<u8>, (A, B)>"]));
    assert_eq!(ElementDescription::parse("Foo<T(a = 1)"), Err(ParseError::UnexpectedToken(1)));
    let t = target(&[("html_element", "::html::Wrapper<Division>")], &[]);
    assert!(expand_derive_to_html_element(&t)
        .unwrap()
        .contains("type Element = ::html::Wrapper<Division>;"));
}
