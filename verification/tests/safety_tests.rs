use companion_updater::safety::{count_from_json, count_pages, counts_of_value, Counts};

#[test]
fn empty_json_object_yields_zeros() {
    let c = count_from_json(b"{}").unwrap();
    assert_eq!(c, Counts::default());
}

#[test]
fn counts_connections_in_instances_map() {
    let json = br#"{"instances":{"a":{},"b":{},"c":{}}}"#;
    assert_eq!(count_from_json(json).unwrap().connections, 3);
}

#[test]
fn counts_triggers_in_triggers_map() {
    let json = br#"{"triggers":{"t1":{},"t2":{}}}"#;
    assert_eq!(count_from_json(json).unwrap().triggers, 2);
}

#[test]
fn counts_buttons_in_pages_array() {
    let json = br#"{"pages":[
        {"controls":{"0":{"0":"bank:a","1":"bank:b"},"1":{"0":"bank:c"}}},
        {"controls":{"0":{"0":"bank:d"}}},
        {"controls":{}}
    ]}"#;
    let c = count_from_json(json).unwrap();
    assert_eq!(c.buttons, 4);
    assert_eq!(c.pages_with_content, 2);
}

#[test]
fn counts_buttons_in_pages_object() {
    let json = br#"{"pages":{"1":{"controls":{"0":{"0":"x"}}}}}"#;
    let c = count_from_json(json).unwrap();
    assert_eq!(c.buttons, 1);
    assert_eq!(c.pages_with_content, 1);
}

#[test]
fn empty_pages_dont_count() {
    let json = br#"{"pages":[{"controls":{}},{"controls":{"0":{}}}]}"#;
    let c = count_from_json(json).unwrap();
    assert_eq!(c.buttons, 0);
    assert_eq!(c.pages_with_content, 0);
}

#[test]
fn invalid_json_errors() {
    assert!(count_from_json(b"not json").is_err());
}

#[test]
fn any_decreased_detects_drop() {
    let pre = Counts {
        connections: 41,
        pages_with_content: 20,
        buttons: 200,
        triggers: 47,
    };
    let post_same = pre;
    let post_more = Counts {
        connections: 42,
        ..pre
    };
    let post_less_buttons = Counts {
        buttons: 199,
        ..pre
    };
    assert!(!pre.any_decreased(&post_same));
    assert!(!pre.any_decreased(&post_more));
    assert!(pre.any_decreased(&post_less_buttons));
}

#[test]
fn lost_clamps_gains_to_zero() {
    let pre = Counts {
        connections: 10,
        pages_with_content: 5,
        buttons: 50,
        triggers: 8,
    };
    let post = Counts {
        connections: 12,
        pages_with_content: 5,
        buttons: 48,
        triggers: 8,
    };
    let lost = pre.lost(&post);
    assert_eq!(lost.connections, 0);
    assert_eq!(lost.buttons, 2);
}

#[test]
fn parse_error_message_names_the_export() {
    let e = count_from_json(b"{\"pages\": [").unwrap_err();
    assert!(e.starts_with("parse companionconfig: "), "got {e}");
    assert!(e.len() > "parse companionconfig: ".len());
}

#[test]
fn export_in_another_format_is_refused() {
    assert_eq!(
        count_from_json(br#"[1,2]"#).unwrap_err(),
        "companionconfig is not a JSON object"
    );
    assert_eq!(
        count_from_json(br#"42"#).unwrap_err(),
        "companionconfig is not a JSON object"
    );
    assert_eq!(
        count_from_json(br#"{"instances":[1,2,3]}"#).unwrap_err(),
        "companionconfig instances section is not an object"
    );
    assert_eq!(
        count_from_json(br#"{"instances":{},"pages":7}"#).unwrap_err(),
        "companionconfig pages section is neither an array nor an object"
    );
    assert_eq!(
        count_from_json(br#"{"pages":[],"triggers":"x"}"#).unwrap_err(),
        "companionconfig triggers section is not an object"
    );
    assert_eq!(
        count_from_json(br#"{"instances":null}"#).unwrap_err(),
        "companionconfig instances section is not an object"
    );
}

#[test]
fn missing_sections_count_as_empty() {
    let json = br#"{"instances":{"a":{}}}"#;
    let c = count_from_json(json).unwrap();
    assert_eq!(c.connections, 1);
    assert_eq!(c.buttons, 0);
    assert_eq!(c.triggers, 0);
}

#[test]
fn rows_that_are_not_objects_hold_no_buttons() {
    let json = br#"{"pages":[{"controls":{"0":[1,2,3],"1":{"0":"a","1":"b"},"2":null}},{"nocontrols":{}}]}"#;
    let c = count_from_json(json).unwrap();
    assert_eq!(c.buttons, 2);
    assert_eq!(c.pages_with_content, 1);
}

#[test]
fn loss_is_zero_exactly_when_nothing_decreased() {
    let a = Counts { connections: 3, pages_with_content: 2, buttons: 9, triggers: 1 };
    let b = Counts { connections: 3, pages_with_content: 1, buttons: 12, triggers: 1 };
    assert!(a.any_decreased(&b));
    assert_ne!(a.lost(&b), Counts::default());
    assert!(!b.any_decreased(&b));
    assert_eq!(b.lost(&b), Counts::default());
    let gained = b.lost(&a);
    assert_eq!(gained, Counts { connections: 0, pages_with_content: 0, buttons: 3, triggers: 0 });
}

#[test]
fn counts_of_parsed_export_agree() {
    let v = companion_updater::json::JsonValue::Object(vec![(
        "pages".to_string(),
        companion_updater::json::JsonValue::Array(vec![companion_updater::json::JsonValue::Object(vec![(
            "controls".to_string(),
            companion_updater::json::JsonValue::Object(vec![(
                "0".to_string(),
                companion_updater::json::JsonValue::Object(vec![
                    ("0".to_string(), companion_updater::json::JsonValue::Null),
                    ("1".to_string(), companion_updater::json::JsonValue::Null),
                ]),
            )]),
        )])]),
    )]);
    assert_eq!(count_pages(&v), Some((1, 2)));
    let c = counts_of_value(&v).unwrap();
    assert_eq!(c.buttons, 2);
    assert_eq!(c.connections, 0);
}

#[test]
fn parse_error_message_carries_the_parser_text() {
    let bytes = b"{\"pages\": [";
    let detail = serde_json::from_slice::<serde_json::Value>(bytes)
        .unwrap_err()
        .to_string();
    assert_eq!(
        count_from_json(bytes).unwrap_err(),
        format!("parse companionconfig: {detail}")
    );
}
