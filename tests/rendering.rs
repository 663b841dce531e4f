use html::embedded::{Audio, Iframe, Image, Video};
use html::forms::{Form, Input, Select};
use html::metadata::Meta;
use html::scripting::Canvas;
use html::tables::TableColumn;
use html::text::LineBreakOpportunity;
use html::text_content::Division;
use html::{DataMap, HtmlElement, Login, Node, Render};

#[test]
fn scenario_audio_source_and_hidden() {
    let audio = Audio {
        src: Some("a.mp3".to_string()),
        aria_hidden: true,
        ..Default::default()
    };
    assert_eq!(audio.to_string(), r#"<audio src="a.mp3" aria-hidden></audio>"#);
}

#[test]
fn scenario_division_with_class_data_and_text() {
    let div = Division::builder()
        .class("hello")
        .data("subject", "stranger")
        .push(Node::text("Hello, stranger."))
        .build();
    assert_eq!(
        div.to_string(),
        r#"<div class="hello" data-subject="stranger">Hello, stranger.</div>"#
    );
}

#[test]
fn scenario_default_division_is_empty() {
    assert_eq!(Division::new().to_string(), "<div></div>");
    assert_eq!(Division::builder().build(), Division::new());
}

#[test]
fn dataset_renders_as_data_prefix() {
    let div = Division::builder().data("subject", "stranger").build();
    let out = div.to_string();
    assert!(out.contains(r#" data-subject="stranger""#));
    assert!(!out.contains("data::subject"));
}

#[test]
fn true_flag_renders_bare_false_flag_absent() {
    let on = Video {
        plays_inline: true,
        ..Default::default()
    };
    assert_eq!(on.to_string(), "<video playsinline></video>");
    let off = Video::default();
    assert_eq!(off.to_string(), "<video></video>");
}

#[test]
fn unset_optional_absent_and_render_twice_identical() {
    let unset = Iframe::default();
    assert_eq!(unset.to_string(), "<iframe></iframe>");
    let set = Iframe {
        src: Some("x.html".to_string()),
        ..Default::default()
    };
    let first = set.to_string();
    let second = set.to_string();
    assert_eq!(first, r#"<iframe src="x.html"></iframe>"#);
    assert_eq!(first, second);
}

#[test]
fn void_elements_have_no_closing_tag() {
    let img = Image {
        src: Some("a.png".to_string()),
        alt: Some("a cat".to_string()),
        ..Default::default()
    };
    assert_eq!(img.to_string(), r#"<img alt="a cat" src="a.png">"#);
    assert_eq!(LineBreakOpportunity::default().to_string(), "<wbr>");
    assert_eq!(TableColumn::default().to_string(), "<col>");
    assert_eq!(Meta::default().to_string(), "<meta>");
    let mut closing = String::new();
    img.write_closing_tag(&mut closing);
    assert_eq!(closing, "");
}

#[test]
fn attribute_values_are_escaped() {
    let div = Division::builder()
        .title(r#"a "b" <c> & d"#)
        .push(Node::text("1 < 2 & 3 > 2"))
        .build();
    assert_eq!(
        div.to_string(),
        r#"<div title="a &quot;b&quot; &lt;c&gt; &amp; d">1 &lt; 2 &amp; 3 &gt; 2</div>"#
    );
}

#[test]
fn numbers_render_in_decimal() {
    let canvas = Canvas {
        width: Some(640),
        height: Some(-42),
        ..Default::default()
    };
    assert_eq!(canvas.to_string(), r#"<canvas width="640" height="-42"></canvas>"#);
    let zero = Canvas {
        width: Some(0),
        height: Some(i64::MIN),
        ..Default::default()
    };
    assert_eq!(
        zero.to_string(),
        r#"<canvas width="0" height="-9223372036854775808"></canvas>"#
    );
}

#[test]
fn global_attributes_follow_own_fields_and_precede_dataset() {
    let mut select = Select {
        name: Some("pet".to_string()),
        required: true,
        size: Some(3),
        ..Default::default()
    };
    select.global_attributes_mut().id = Some("s".to_string());
    select.data_map.insert("k".to_string(), "v".to_string());
    assert_eq!(
        select.to_string(),
        r#"<select name="pet" required size="3" id="s" data-k="v"></select>"#
    );
    assert_eq!(select.global_attributes().id, Some("s".to_string()));
}

#[test]
fn attributes_list_present_pairs() {
    let mut select = Select {
        disabled: true,
        size: Some(7),
        ..Default::default()
    };
    select.global_attributes_mut().class = Some("c".to_string());
    assert_eq!(
        select.attributes(),
        vec![
            ("disabled".to_string(), "true".to_string()),
            ("size".to_string(), "7".to_string()),
            ("class".to_string(), "c".to_string()),
        ]
    );
}

#[test]
fn dataset_insert_replaces_in_place() {
    let mut data = DataMap::new();
    data.insert("a".to_string(), "1".to_string());
    data.insert("b".to_string(), "2".to_string());
    data.insert("a".to_string(), "3".to_string());
    assert_eq!(data.len(), 2);
    assert_eq!(
        data.entries(),
        &vec![
            ("a".to_string(), "3".to_string()),
            ("b".to_string(), "2".to_string()),
        ]
    );
    assert_eq!(data.get(&"a".to_string()), Some(&"3".to_string()));
    assert_eq!(data.get(&"c".to_string()), None);
    let mut out = String::new();
    data.write(&mut out);
    assert_eq!(out, r#" data-a="3" data-b="2""#);
}

#[test]
fn input_is_void_and_form_holds_children() {
    let input = Input::builder().type_("text").value("x").required(true).max_length(5).build();
    assert_eq!(input.to_string(), r#"<input maxlength="5" required type="text" value="x">"#);
    let form = Form::builder().action("/go").push(Node::element(&input)).build();
    assert_eq!(
        form.to_string(),
        r#"<form action="/go"><input maxlength="5" required type="text" value="x"></form>"#
    );
    assert_eq!(form.children().len(), 1);
    assert_eq!(form.tag_name(), "form");
}

#[test]
fn login_renders_two_inputs() {
    let mut login = Login::new("a@b.com".to_string(), "pw".to_string());
    login.update_password("secret".to_string());
    let form = login.to_form();
    assert_eq!(
        form.to_string(),
        r#"<form><input type="text" value="a@b.com"><input type="password" value="secret"></form>"#
    );
    login.update_email("c@d.org".to_string());
    assert!(login.to_form().to_string().contains(r#"value="c@d.org""#));
}

#[test]
fn render_indents_by_four_spaces_per_level() {
    let mut out = String::new();
    "hi".to_string().render(&mut out, 2);
    assert_eq!(out, "        hi");
}

#[test]
fn html_element_trait_matches_inherent_rendering() {
    let audio = Audio {
        muted: Some("".to_string()),
        ..Default::default()
    };
    assert_eq!(audio.to_html(), audio.to_string());
    assert_eq!(audio.to_html(), r#"<audio muted=""></audio>"#);
    assert!(audio.children().is_empty());
}

#[test]
fn container_children_are_listed_in_order() {
    let div = Division::builder()
        .push(Node::text("a"))
        .push(Node::element(&LineBreakOpportunity::default()))
        .build();
    assert_eq!(
        div.children(),
        vec![Node::Text("a".to_string()), Node::Element("<wbr>".to_string())]
    );
    assert_eq!(div.to_string(), "<div>a<wbr></div>");
    assert_eq!(div.tag_name(), "div");
}

#[test]
fn title_dataset_renders_as_data_attribute() {
    let mut title = html::metadata::Title::default();
    title.data_map.insert("subject".to_string(), "stranger".to_string());
    let mut w = String::new();
    title.write_opening_tag(&mut w);
    assert_eq!(w, r#"<title data-subject="stranger">"#);
    assert!(!w.contains("data::subject"));
}
