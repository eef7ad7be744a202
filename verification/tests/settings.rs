use early_boot_config::json::JsonValue;
use early_boot_config::settings::{parse_markup, Error, SettingsJson, SETTINGS_KEY};

fn text(s: &str) -> JsonValue {
    JsonValue::String(s.to_string())
}

fn number(s: &str) -> JsonValue {
    JsonValue::Number(s.to_string())
}

fn object(members: Vec<(&str, JsonValue)>) -> JsonValue {
    JsonValue::Object(members.into_iter().map(|(k, v)| (k.to_string(), v)).collect())
}

#[test]
fn the_root_is_named_settings() {
    assert_eq!(SETTINGS_KEY, "settings");
}

#[test]
fn markup_round_trips_through_the_canonical_form() {
    let markup = r#"
        [settings]
        motd = "hello"

        [settings.kubernetes]
        cluster-name = "prod"
        max-pods = 110
        labels = ["a", "b"]

        [settings.ntp]
        enabled = true
    "#;
    let json = r#"{
        "settings": {
            "motd": "hello",
            "kubernetes": {"cluster-name": "prod", "max-pods": 110, "labels": ["a", "b"]},
            "ntp": {"enabled": true}
        }
    }"#;
    let fragment = SettingsJson::from_toml_str(markup, "user data").unwrap();
    let direct = JsonValue::parse(json).unwrap();
    assert_eq!(fragment.json(), &direct);
    assert_eq!(fragment.json().get("settings"), direct.get("settings"));
    assert_eq!(fragment.desc(), "user data");
}

#[test]
fn markup_is_taken_as_it_is() {
    let fragment =
        SettingsJson::from_toml_str("top = 1\n[settings]\nmotd = \"hi\"\n", "user data").unwrap();
    assert_eq!(
        fragment.into_json(),
        object(vec![("settings", object(vec![("motd", text("hi"))])), ("top", number("1"))])
    );
}

#[test]
fn parse_markup_reads_every_sort_of_value() {
    let parsed = parse_markup(
        "s = 'x'\ni = -3\nr = 2.5\nt = true\na = [1, [2]]\nd = 1979-05-27T07:32:00Z\n[o]\nk = \"v\"\n",
    )
    .unwrap();
    assert_eq!(
        parsed,
        object(vec![
            ("a", JsonValue::Array(vec![number("1"), JsonValue::Array(vec![number("2")])])),
            ("d", object(vec![("$__toml_private_datetime", text("1979-05-27T07:32:00Z"))])),
            ("i", number("-3")),
            ("o", object(vec![("k", text("v"))])),
            ("r", number("2.5")),
            ("s", text("x")),
            ("t", JsonValue::Bool(true)),
        ])
    );
}

#[test]
fn parse_markup_of_nothing_is_an_empty_object() {
    assert_eq!(parse_markup(""), Ok(object(vec![])));
}

#[test]
fn parse_markup_refuses_malformed_text() {
    assert!(parse_markup("[settings\nmotd = 1").is_err());
    assert!(parse_markup("a = ").is_err());
    assert!(parse_markup("a = 1\na = 2").is_err());
    assert!(parse_markup("{\"settings\": {}}").is_err());
}

#[test]
fn parse_markup_refuses_nesting_beyond_the_parser_limit() {
    let deep = format!("a = {}1{}", "[".repeat(5000), "]".repeat(5000));
    assert!(parse_markup(&deep).is_err());
}

#[test]
fn malformed_markup_is_a_parse_error() {
    match SettingsJson::from_toml_str("[settings\n", "user data") {
        Err(Error::MarkupParse { desc, reason }) => {
            assert_eq!(desc, "user data");
            assert!(!reason.is_empty());
        }
        other => panic!("expected a parse error, got {:?}", other),
    }
}

#[test]
fn markup_without_settings_is_a_serialization_error() {
    for markup in ["", "motd = \"hi\"\n", "[other]\nx = 1\n", "settings = 5\n", "settings = []\n"] {
        assert_eq!(
            SettingsJson::from_toml_str(markup, "user data"),
            Err(Error::Serialization { desc: "user data".to_string() })
        );
    }
}

#[test]
fn empty_settings_section_is_a_fragment() {
    let fragment = SettingsJson::from_toml_str("[settings]\n", "user data").unwrap();
    assert_eq!(fragment.json(), &object(vec![("settings", object(vec![]))]));
}

#[test]
fn from_parsed_takes_the_tree_or_the_message() {
    let tree = object(vec![("settings", object(vec![("a", number("1"))]))]);
    let fragment = SettingsJson::from_parsed(Ok(tree.clone()), "file").unwrap();
    assert_eq!(fragment.json(), &tree);
    assert_eq!(fragment.desc(), "file");
    assert_eq!(
        SettingsJson::from_parsed(Err("expected `=`".to_string()), "file"),
        Err(Error::MarkupParse { desc: "file".to_string(), reason: "expected `=`".to_string() })
    );
    assert_eq!(
        SettingsJson::from_parsed(Ok(object(vec![("a", number("1"))])), "file"),
        Err(Error::Serialization { desc: "file".to_string() })
    );
}

#[test]
fn from_tree_wants_a_settings_object_at_the_root() {
    let good = object(vec![("settings", object(vec![]))]);
    assert_eq!(SettingsJson::from_tree(good.clone(), "d").unwrap().into_json(), good);
    for bad in [
        JsonValue::Null,
        text("settings"),
        JsonValue::Array(vec![object(vec![("settings", object(vec![]))])]),
        object(vec![]),
        object(vec![("Settings", object(vec![]))]),
        object(vec![("settings", text("x"))]),
        object(vec![("settings", JsonValue::Null)]),
        object(vec![("settings", JsonValue::Array(vec![]))]),
        object(vec![("a", object(vec![("settings", object(vec![]))]))]),
    ] {
        assert_eq!(
            SettingsJson::from_tree(bad, "d"),
            Err(Error::Serialization { desc: "d".to_string() })
        );
    }
}

#[test]
fn from_tree_goes_by_the_first_member_named_settings() {
    let first_is_object =
        object(vec![("settings", object(vec![])), ("settings", text("shadowed"))]);
    assert!(SettingsJson::from_tree(first_is_object, "d").is_ok());
    let first_is_text = object(vec![("settings", text("first")), ("settings", object(vec![]))]);
    assert!(SettingsJson::from_tree(first_is_text, "d").is_err());
}

#[test]
fn from_val_wraps_under_the_key_path_and_the_root() {
    let fragment = SettingsJson::from_val(
        text("us-west-2"),
        &["aws", "region"],
        "instance identity document",
    )
    .unwrap();
    assert_eq!(
        fragment.json(),
        &JsonValue::parse(r#"{"settings":{"aws":{"region":"us-west-2"}}}"#).unwrap()
    );
    assert_eq!(fragment.desc(), "instance identity document");
}

#[test]
fn from_val_under_an_empty_path_wants_an_object() {
    let inner = object(vec![("motd", text("hi"))]);
    let fragment = SettingsJson::from_val(inner.clone(), &[], "d").unwrap();
    assert_eq!(fragment.into_json(), object(vec![("settings", inner)]));
    for value in [text("x"), JsonValue::Null, number("1"), JsonValue::Array(vec![])] {
        assert_eq!(
            SettingsJson::from_val(value, &[], "d"),
            Err(Error::Serialization { desc: "d".to_string() })
        );
    }
}

#[test]
fn from_val_under_a_path_takes_any_value() {
    for value in [text("x"), JsonValue::Null, number("1"), JsonValue::Array(vec![])] {
        let fragment = SettingsJson::from_val(value.clone(), &["k"], "d").unwrap();
        assert_eq!(fragment.into_json(), object(vec![("settings", object(vec![("k", value)]))]));
    }
}

#[test]
fn settings_is_the_object_under_the_root() {
    let fragment =
        SettingsJson::from_toml_str("top = 1\n[settings]\nmotd = \"hi\"\n", "user data").unwrap();
    assert_eq!(fragment.settings(), &object(vec![("motd", text("hi"))]));
    let wrapped = SettingsJson::from_val(text("x"), &["a", "b"], "d").unwrap();
    assert_eq!(wrapped.settings(), &object(vec![("a", object(vec![("b", text("x"))]))]));
    let empty = SettingsJson::from_tree(object(vec![("settings", object(vec![]))]), "d").unwrap();
    assert_eq!(empty.settings(), &object(vec![]));
}
