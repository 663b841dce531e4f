use html::forms::{Form, Input};
use html::{add, expand_derive_to_html_element, DataShape, DeriveTarget, Node, ToHtmlElement};

#[test]
fn it_works() {
    let result = add(2, 2);
    assert_eq!(result, 4);
}

struct MyForm {
    email: String,
    password: String,
}

impl ToHtmlElement for MyForm {
    type Element = Form;

    fn to_html_element(&self) -> Form {
        Form::builder()
            .class("hello")
            .push(Node::element(&Input::builder().value(&self.email).type_("text").build()))
            .push(Node::element(&Input::builder().value(&self.password).type_("password").build()))
            .build()
    }
}

#[test]
fn test_basic() {
    let want = Form::builder()
        .class("hello")
        .push(Node::element(&Input::builder().value("a@b.com").type_("text").build()))
        .push(Node::element(
            &Input::builder().value("aaaaah").type_("password").build(),
        ))
        .build();

    let target = DeriveTarget {
        ident: "MyForm".to_string(),
        shape: DataShape::Struct(vec!["email".to_string(), "password".to_string()]),
        attrs: vec![("html_element".to_string(), r#"form(class = "hello")"#.to_string())],
    };
    let code = expand_derive_to_html_element(&target).unwrap();
    assert_eq!(
        code,
        "impl ::html::ToHtmlElement for MyForm { type Element = form; fn to_html_element(&self) -> Self::Element \
         { <Self::Element>::builder().class(\"hello\").push(::html::Node::text(&self.email))\
         .push(::html::Node::text(&self.password)).build() } }"
    );

    let got = MyForm {
        email: "a@b.com".to_string(),
        password: "aaaaah".to_string(),
    }
    .to_html_element();

    assert_eq!(got, want);
}
