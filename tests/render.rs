use google_chat_integration::event::AMErrorEvent;
use google_chat_integration::render::{
    create_card_buttons, create_card_message, create_header_message, format_recepients, Button,
};
use serde_json::Value;

fn event(
    workflow: &str,
    exc_id: &str,
    categories: &[&str],
    message: &str,
    continue_url: Option<&str>,
    abort_url: Option<&str>,
) -> AMErrorEvent {
    AMErrorEvent {
        workflow: workflow.to_string(),
        exc_id: exc_id.to_string(),
        categories: categories.iter().map(|c| c.to_string()).collect(),
        message: message.to_string(),
        continue_url: continue_url.map(|u| u.to_string()),
        abort_url: abort_url.map(|u| u.to_string()),
    }
}

fn s(text: &str) -> Value {
    Value::String(text.to_string())
}

fn obj(entries: Vec<(&str, Value)>) -> Value {
    let mut m = serde_json::Map::new();
    for (k, v) in entries {
        m.insert(k.to_string(), v);
    }
    Value::Object(m)
}

fn button_json(label: &str, url: &str) -> Value {
    obj(vec![(
        "textButton",
        obj(vec![
            ("text", s(label)),
            ("onClick", obj(vec![("openLink", obj(vec![("url", s(url))]))])),
        ]),
    )])
}

fn buttons_json(buttons: &[Button]) -> Vec<Value> {
    buttons.iter().map(|b| b.to_json()).collect()
}

fn card_json(text: &str, body: &str, buttons: Vec<Value>) -> Value {
    obj(vec![
        (
            "cards",
            Value::Array(vec![obj(vec![
                (
                    "header",
                    obj(vec![
                        ("title", s("Alert!")),
                        (
                            "imageUrl",
                            s("https://developers.google.com/chat/images/quickstart-app-avatar.png"),
                        ),
                    ]),
                ),
                (
                    "sections",
                    Value::Array(vec![
                        obj(vec![(
                            "widgets",
                            Value::Array(vec![obj(vec![("textParagraph", obj(vec![("text", s(body))]))])]),
                        )]),
                        obj(vec![(
                            "widgets",
                            Value::Array(vec![obj(vec![("buttons", Value::Array(buttons))])]),
                        )]),
                    ]),
                ),
            ])]),
        ),
        ("text", s(text)),
    ])
}

fn expected_header(callout: &str, workflow: &str, exc_id: &str, message: &str) -> String {
    format!(
        "Hi {}, The workflow: <b><font color='black'>{}</font></b>; \
    failed for the production ID: <b><font color='black'>{}</font></b>. \
    This is the error message: <font color='#FF0000'>{}</font>",
        callout, workflow, exc_id, message
    )
}

#[test]
fn test_format_recepients_empty() {
    let input: Vec<String> = vec![];
    let expected_output = "".to_string();
    let prefix = "@";
    assert_eq!(format_recepients(&input, prefix), expected_output);
}

#[test]
fn test_format_recepients_one_element() {
    let input = vec!["admin".to_string()];
    let expected_output = "&admin".to_string();
    let prefix = "&";
    assert_eq!(format_recepients(&input, prefix), expected_output);
}

#[test]
fn test_format_recepients_multiple_elements() {
    let input = vec!["admin".to_string(), "developer".to_string(), "QA".to_string()];
    let expected_output = "$admin, $developer, $QA".to_string();
    let prefix = "$";
    assert_eq!(format_recepients(&input, prefix), expected_output);
}

#[test]
fn test_create_header_message_one_categorie() {
    let e = event("workflow1", "exc_id1", &["admin"], "Error message", None, None);
    let expected_output = expected_header("@admin", "workflow1", "exc_id1", "Error message");
    assert_eq!(create_header_message(&e), expected_output);
}

#[test]
fn test_create_header_message_multiple_categories() {
    let e = event(
        "workflow2",
        "exc_id2",
        &["admin", "developer"],
        "Another error message",
        None,
        None,
    );
    let expected_output =
        expected_header("@admin, @developer", "workflow2", "exc_id2", "Another error message");
    assert_eq!(create_header_message(&e), expected_output);
}

#[test]
fn test_create_card_buttons_continue_only() {
    let e = event("", "", &[], "", Some("https://continue.com"), None);
    let expected_output = vec![button_json("Continue", "https://continue.com")];
    assert_eq!(buttons_json(&create_card_buttons(&e)), expected_output);
}

#[test]
fn test_create_card_buttons_abort_only() {
    let e = event("", "", &[], "", None, Some("https://abort.com"));
    let expected_output = vec![button_json("Abort", "https://abort.com")];
    assert_eq!(buttons_json(&create_card_buttons(&e)), expected_output);
}

#[test]
fn test_create_card_buttons_both() {
    let e = event("", "", &[], "", Some("https://continue.com"), Some("https://abort.com"));
    let expected_output = vec![
        button_json("Continue", "https://continue.com"),
        button_json("Abort", "https://abort.com"),
    ];
    assert_eq!(buttons_json(&create_card_buttons(&e)), expected_output);
}

#[test]
fn test_create_card_message_no_urls() {
    let e = event("workflow1", "exc_id1", &["admin"], "Error message", None, None);
    let expected_output = card_json(
        "#admin",
        "Hi @admin, The workflow: <b><font color='black'>workflow1</font></b>; \
                                        failed for the production ID: <b><font color='black'>exc_id1</font></b>. \
                                        This is the error message: <font color='#FF0000'>Error message</font>",
        vec![],
    );
    assert_eq!(create_card_message(&e).to_json(), expected_output);
}

#[test]
fn test_create_card_message_with_urls() {
    let e = event(
        "workflow1",
        "exc_id1",
        &["admin"],
        "Error message",
        Some("https://continue.com"),
        Some("https://abort.com"),
    );
    let expected_output = card_json(
        "#admin",
        "Hi @admin, The workflow: <b><font color='black'>workflow1</font></b>; failed for the production ID: <b><font color='black'>exc_id1</font></b>. This is the error message: <font color='#FF0000'>Error message</font>",
        vec![
            button_json("Continue", "https://continue.com"),
            button_json("Abort", "https://abort.com"),
        ],
    );
    assert_eq!(create_card_message(&e).to_json(), expected_output);
}

#[test]
fn scenario_single_category_no_links() {
    let e = event("workflow1", "exc_id1", &["admin"], "Error message", None, None);
    let card = create_card_message(&e);
    assert_eq!(card.text, "#admin");
    assert!(card.body.starts_with("Hi @admin, The workflow: "));
    assert!(card.buttons.is_empty());
    assert_eq!(card.title, "Alert!");
    assert_eq!(
        card.image_url,
        "https://developers.google.com/chat/images/quickstart-app-avatar.png"
    );
}

#[test]
fn scenario_both_links() {
    let e = event(
        "workflow1",
        "exc_id1",
        &["admin"],
        "Error message",
        Some("https://continue.com"),
        Some("https://abort.com"),
    );
    let card = create_card_message(&e);
    assert_eq!(card.buttons.len(), 2);
    assert_eq!(card.buttons[0].text, "Continue");
    assert_eq!(card.buttons[0].url, "https://continue.com");
    assert_eq!(card.buttons[1].text, "Abort");
    assert_eq!(card.buttons[1].url, "https://abort.com");
}

#[test]
fn scenario_no_categories() {
    let e = event("workflow1", "exc_id1", &[], "Error message", None, None);
    let card = create_card_message(&e);
    assert_eq!(card.text, "");
    assert!(card.body.starts_with("Hi , The workflow: "));
    let json = card.to_json();
    assert_eq!(json["text"], s(""));
    assert_eq!(json["cards"][0]["sections"][1]["widgets"][0]["buttons"], Value::Array(vec![]));
}

#[test]
fn recipients_empty_only_without_labels() {
    assert_eq!(format_recepients(&[], "#"), "");
    assert_eq!(format_recepients(&["x".to_string()], ""), "x");
    assert_eq!(format_recepients(&["".to_string()], "@"), "@");
    assert_eq!(format_recepients(&["".to_string(), "".to_string()], ""), ", ");
}

#[test]
fn recipients_keep_order_and_duplicates() {
    let input = vec!["b".to_string(), "a".to_string(), "b".to_string()];
    assert_eq!(format_recepients(&input, "@"), "@b, @a, @b");
}

#[test]
fn header_change_of_one_field_keeps_markup() {
    let a = create_header_message(&event("w", "x", &["t"], "m", None, None));
    let b = create_header_message(&event("other <i>flow</i>", "x", &["t"], "m", None, None));
    assert_eq!(a, expected_header("@t", "w", "x", "m"));
    assert_eq!(b, expected_header("@t", "other <i>flow</i>", "x", "m"));
    let c = create_header_message(&event("w", "run-7", &["t"], "it's \"bad\"", None, None));
    assert_eq!(c, expected_header("@t", "w", "run-7", "it's \"bad\""));
}

#[test]
fn no_links_give_no_buttons() {
    let e = event("w", "x", &["t"], "m", None, None);
    assert!(create_card_buttons(&e).is_empty());
}

#[test]
fn same_event_gives_same_card() {
    let e = event("w", "x", &["a", "b"], "m", Some("https://c"), None);
    assert_eq!(create_card_message(&e).to_json(), create_card_message(&e).to_json());
}

#[test]
fn button_json_carries_label_and_link() {
    let e = event("", "", &[], "", None, Some("https://abort.example/run?id=1"));
    let json = create_card_buttons(&e)[0].to_json();
    assert_eq!(json["textButton"]["text"], s("Abort"));
    assert_eq!(
        json["textButton"]["onClick"]["openLink"]["url"],
        s("https://abort.example/run?id=1")
    );
}

#[test]
fn event_constructor_keeps_fields() {
    let e = AMErrorEvent::new(
        "w".to_string(),
        "x".to_string(),
        vec!["t".to_string()],
        "m".to_string(),
        Some("c".to_string()),
        None,
    );
    assert_eq!(e.workflow, "w");
    assert_eq!(e.exc_id, "x");
    assert_eq!(e.categories, vec!["t".to_string()]);
    assert_eq!(e.message, "m");
    assert_eq!(e.continue_url, Some("c".to_string()));
    assert_eq!(e.abort_url, None);
}
