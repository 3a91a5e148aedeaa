use ql_zmq_stats::{choose_display, format_ql_json};

#[test]
fn pretty_prints_json_object() {
    assert_eq!(format_ql_json("{\"a\":1}", true), "{\n  \"a\": 1\n}");
}

#[test]
fn compacts_json_object() {
    assert_eq!(format_ql_json("{ \"a\" : 1 ,  \"b\": [1, 2] }", false), "{\"a\":1,\"b\":[1,2]}");
}

#[test]
fn compacts_scalar_json() {
    assert_eq!(format_ql_json("  42 ", false), "42");
    assert_eq!(format_ql_json("\"text\"", true), "\"text\"");
}

#[test]
fn invalid_json_is_returned_unchanged() {
    assert_eq!(format_ql_json("not json", true), "not json");
    assert_eq!(format_ql_json("not json", false), "not json");
    assert_eq!(format_ql_json("{\"a\":", true), "{\"a\":");
    assert_eq!(format_ql_json("", false), "");
}

#[test]
fn formatting_invalid_input_twice_is_stable() {
    let once = format_ql_json("{broken", true);
    assert_eq!(format_ql_json(&once, true), "{broken");
}

#[test]
fn rendering_reparses_to_equal_value() {
    let inputs = [
        "{\"a\":1,\"b\":{\"c\":[true,null,\"x\"]}}",
        "[1, 2.5, -3, \"q\\\"uote\"]",
        "{\"DATA\":{\"KILLER\":{\"NAME\":\"x\"}},\"TYPE\":\"PLAYER_KILL\"}",
    ];
    for input in inputs {
        let original: serde_json::Value = serde_json::from_str(input).unwrap();
        for pretty in [false, true] {
            let out = format_ql_json(input, pretty);
            let again: serde_json::Value = serde_json::from_str(&out).unwrap();
            assert_eq!(original, again);
        }
    }
}

#[test]
fn choose_display_prefers_rendering() {
    assert_eq!(choose_display("raw", Some("rendered".to_string())), "rendered");
    assert_eq!(choose_display("raw", None), "raw");
}
