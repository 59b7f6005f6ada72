use agent_actions::protocol::{parse_response, render_schema, Action, AiResponse};

#[test]
fn schema_transfer_example_decodes_exactly() {
    let payload = "{\"action\": {\"TransferPlus\": {\"old_username\": \"fdx\", \"new_username\": \"FDX\"}}, \"text\": \"We have successfully transferred your Plus days to your new account!\"}";
    assert!(render_schema().contains(payload));
    let resp = parse_response(payload).unwrap();
    assert_eq!(
        resp,
        AiResponse {
            action: Action::TransferPlus {
                old_username: "fdx".to_string(),
                new_username: "FDX".to_string(),
            },
            text: "We have successfully transferred your Plus days to your new account!"
                .to_string(),
        }
    );
}

#[test]
fn schema_null_example_decodes_exactly() {
    let payload = "{\"action\": \"Null\", \"text\": \"Good morning! How can I help you today? I can say things like\\n - \\\"Hello\\\"\\n - \\\"Goodbye\\\"\\nand many other things.\"}";
    assert!(render_schema().contains(payload));
    let resp = parse_response(payload).unwrap();
    assert_eq!(
        resp,
        AiResponse {
            action: Action::Null,
            text: "Good morning! How can I help you today? I can say things like\n - \"Hello\"\n - \"Goodbye\"\nand many other things."
                .to_string(),
        }
    );
}

#[test]
fn schema_abort_example_decodes_exactly() {
    let payload = "{\"action\": \"Abort\", \"text\": \"\"}";
    assert!(render_schema().contains(payload));
    let resp = parse_response(payload).unwrap();
    assert_eq!(
        resp,
        AiResponse {
            action: Action::Abort,
            text: String::new(),
        }
    );
}

#[test]
fn unknown_action_tag_is_rejected() {
    assert!(parse_response("{\"action\": \"Destroy\", \"text\": \"x\"}").is_err());
    assert!(parse_response(
        "{\"action\": {\"Destroy\": {\"old_username\": \"a\", \"new_username\": \"b\"}}, \"text\": \"\"}"
    )
    .is_err());
    // The tag of a transfer without its fields is not an action either.
    assert!(parse_response("{\"action\": \"TransferPlus\", \"text\": \"\"}").is_err());
}

#[test]
fn transfer_missing_field_is_rejected() {
    assert!(parse_response(
        "{\"action\": {\"TransferPlus\": {\"old_username\": \"a\"}}, \"text\": \"\"}"
    )
    .is_err());
    assert!(parse_response(
        "{\"action\": {\"TransferPlus\": {\"new_username\": \"b\"}}, \"text\": \"\"}"
    )
    .is_err());
    assert!(parse_response("{\"action\": {\"TransferPlus\": {}}, \"text\": \"\"}").is_err());
}

#[test]
fn non_structured_input_is_rejected() {
    assert!(parse_response("hello there").is_err());
    assert!(parse_response("").is_err());
    assert!(parse_response("   ").is_err());
    assert!(parse_response("```json\n{\"action\": \"Null\", \"text\": \"\"}\n```").is_err());
}

#[test]
fn missing_text_field_is_rejected() {
    assert!(parse_response("{\"action\": \"Null\"}").is_err());
}

#[test]
fn trailing_garbage_is_rejected() {
    assert!(parse_response("{\"action\": \"Null\", \"text\": \"\"} x").is_err());
    assert!(parse_response("{\"action\": \"Null\", \"text\": \"\"}{\"action\": \"Null\", \"text\": \"\"}").is_err());
}

#[test]
fn fields_out_of_order_are_rejected() {
    assert!(parse_response("{\"text\": \"\", \"action\": \"Null\"}").is_err());
}

#[test]
fn extra_field_is_rejected() {
    assert!(parse_response("{\"action\": \"Null\", \"text\": \"\", \"extra\": \"\"}").is_err());
}

#[test]
fn whitespace_between_tokens_is_accepted() {
    let resp = parse_response("  {\n  \"action\" :\t\"Null\" ,\r\n  \"text\" : \"ok\"  }\n ")
        .unwrap();
    assert_eq!(resp.action, Action::Null);
    assert_eq!(resp.text, "ok");
}

#[test]
fn string_escapes_decode() {
    let resp =
        parse_response("{\"action\": \"Null\", \"text\": \"a\\tb\\\\c\\/d\\b\\f\\r\\\"e\\\"\"}")
            .unwrap();
    assert_eq!(resp.text, "a\tb\\c/d\u{0008}\u{000C}\r\"e\"");
}

#[test]
fn unknown_escape_is_rejected() {
    assert!(parse_response("{\"action\": \"Null\", \"text\": \"\\u0041\"}").is_err());
    assert!(parse_response("{\"action\": \"Null\", \"text\": \"\\x\"}").is_err());
}

#[test]
fn raw_control_character_is_rejected() {
    assert!(parse_response("{\"action\": \"Null\", \"text\": \"a\nb\"}").is_err());
}

#[test]
fn unterminated_string_is_rejected() {
    assert!(parse_response("{\"action\": \"Null\", \"text\": \"open").is_err());
    assert!(parse_response("{\"action\": \"Null\", \"text\": \"end\\").is_err());
}

#[test]
fn non_ascii_text_is_kept() {
    let resp = parse_response("{\"action\": \"Null\", \"text\": \"caf\u{00e9} \u{2713}\"}").unwrap();
    assert_eq!(resp.text, "caf\u{00e9} \u{2713}");
}

#[test]
fn transfer_usernames_are_case_sensitive() {
    let resp = parse_response(
        "{\"action\": {\"TransferPlus\": {\"old_username\": \"ab\", \"new_username\": \"AB\"}}, \"text\": \"done\"}",
    )
    .unwrap();
    assert_eq!(
        resp.action,
        Action::TransferPlus {
            old_username: "ab".to_string(),
            new_username: "AB".to_string(),
        }
    );
}

#[test]
fn schema_text_names_all_three_actions() {
    let schema = render_schema();
    assert!(schema.contains("\"Null\""));
    assert!(schema.contains("\"TransferPlus\""));
    assert!(schema.contains("\"Abort\""));
    assert!(schema.contains("\"old_username\""));
    assert!(schema.contains("\"new_username\""));
}
