use handlebars::Handlebars;
use serde_json::Value;
use telescope::error::TelescopeError;
use telescope::templates::{page_or_error, Template};

fn text(value: &str) -> Value {
    Value::String(value.to_string())
}

#[test]
fn new_template_has_no_fields() {
    let template = Template::new("static/index");
    assert_eq!(template.handlebars_file, "static/index");
    assert_eq!(template.fields.len(), 0);
}

#[test]
fn fields_are_set_and_replaced() {
    let mut template = Template::new("greeting").field("name".to_string(), text("World"));
    template.set_field("mood".to_string(), text("fine"));
    template.set_field("name".to_string(), text("Telescope"));
    assert_eq!(template.fields.len(), 2);
    assert_eq!(template.fields.get(&"name".to_string()), Some(&text("Telescope")));
    assert_eq!(template.fields.get(&"mood".to_string()), Some(&text("fine")));
    assert_eq!(template.fields.get(&"other".to_string()), None);
    assert_eq!(template.handlebars_file, "greeting");
}

#[test]
fn template_renders_with_its_fields() {
    let mut registry = Handlebars::new();
    registry
        .register_template_string("greeting", "Hello {{name}}, {{count}} new!")
        .expect("the template is well formed");
    let template = Template::new("greeting")
        .field("name".to_string(), text("World"))
        .field("count".to_string(), Value::from(3));
    match template.render(&registry) {
        Ok(page) => assert_eq!(page, "Hello World, 3 new!"),
        Err(error) => panic!("expected a page, got {:?}", error),
    }
}

#[test]
fn unknown_template_is_a_rendering_error() {
    let registry = Handlebars::new();
    let template = Template::new("nowhere").field("name".to_string(), text("World"));
    match template.render(&registry) {
        Err(TelescopeError::RenderingError { desc, template_name, line_no, column_no }) => {
            assert!(!desc.is_empty());
            assert_eq!(template_name, None);
            assert_eq!(line_no, None);
            assert_eq!(column_no, None);
        }
        other => panic!("expected a rendering error, got {:?}", other),
    }
}

#[test]
fn rendered_page_is_handed_on_and_failure_becomes_a_rendering_error() {
    match page_or_error(Ok("<p>Hello</p>".to_string())) {
        Ok(page) => assert_eq!(page, "<p>Hello</p>"),
        Err(error) => panic!("expected the page, got {:?}", error),
    }
    let mut failure = handlebars::RenderError::new("no such helper");
    failure.template_name = Some("index".to_string());
    failure.line_no = Some(3);
    failure.column_no = Some(14);
    match page_or_error(Err(failure)) {
        Err(TelescopeError::RenderingError { desc, template_name, line_no, column_no }) => {
            assert_eq!(desc, "no such helper");
            assert_eq!(template_name, Some("index".to_string()));
            assert_eq!(line_no, Some(3));
            assert_eq!(column_no, Some(14));
        }
        other => panic!("expected a rendering error, got {:?}", other),
    }
}
