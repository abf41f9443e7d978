use yason::{convert, convert_as, json_output, json_to_yaml, yaml_output, yaml_to_json};
use yason::{ConvertError, Format};

fn json(text: &str) -> serde_json::Value {
    serde_json::from_str(text).unwrap()
}

fn yaml(text: &str) -> serde_yaml::Value {
    serde_yaml::from_str(text).unwrap()
}

#[test]
fn json_file_becomes_equivalent_yaml() {
    let out = convert("in.json", r#"{"a":1,"b":[true,null,"x"]}"#).unwrap();
    assert_eq!(yaml(&out), yaml("{a: 1, b: [true, null, \"x\"]}"));
    assert!(serde_json::from_str::<serde_json::Value>(&out).is_err());
}

#[test]
fn yml_file_becomes_equivalent_pretty_json() {
    let out = convert("in.yml", "a: 1\nb: [true, null, x]").unwrap();
    assert_eq!(json(&out), json(r#"{"a":1,"b":[true,null,"x"]}"#));
    assert!(out.contains('\n'));
    assert!(out.contains("\n  \"a\": 1"));
}

#[test]
fn yaml_extension_also_converts_to_json() {
    let out = convert("conf/in.yaml", "k: v").unwrap();
    assert_eq!(json(&out), json(r#"{"k":"v"}"#));
}

#[test]
fn json_to_yaml_and_back_keeps_the_document() {
    let doc = r#"{"name":"x","n":-3,"f":1.5,"list":[1,[2,3],{"deep":null}],"m":{"z":true,"a":"s"}}"#;
    let as_yaml = json_to_yaml("doc.json", doc).unwrap();
    let back = yaml_to_json("doc.yml", &as_yaml).unwrap();
    assert_eq!(json(&back), json(doc));
}

#[test]
fn round_trip_of_scalars_and_empty_containers() {
    for doc in ["null", "true", "0", "\"text\"", "[]", "{}", r#"{"e":[],"o":{}}"#] {
        let as_yaml = json_to_yaml("doc.json", doc).unwrap();
        let back = yaml_to_json("doc.yml", &as_yaml).unwrap();
        assert_eq!(json(&back), json(doc));
    }
}

#[test]
fn json_keys_come_out_sorted_in_yaml() {
    let out = json_to_yaml("k.json", r#"{"b":1,"a":2}"#).unwrap();
    assert_eq!(out, "a: 2\nb: 1\n");
}

#[test]
fn yaml_key_order_is_kept_in_json() {
    let out = yaml_to_json("k.yml", "b: 1\na: 2\n").unwrap();
    assert_eq!(out, "{\n  \"b\": 1,\n  \"a\": 2\n}");
}

#[test]
fn txt_file_is_an_unsupported_format() {
    let r = convert("notes.txt", r#"{"a":1}"#);
    match r {
        Err(ConvertError::UnsupportedFormat { path }) => assert_eq!(path, "notes.txt"),
        other => panic!("unexpected result {:?}", other),
    }
}

#[test]
fn file_without_extension_is_an_unsupported_format() {
    let r = convert("Makefile", "a: 1");
    assert!(matches!(r, Err(ConvertError::UnsupportedFormat { .. })));
}

#[test]
fn trailing_comma_is_named_invalid_json() {
    let r = convert("bad.json", r#"{"a":1,}"#);
    match r {
        Err(ConvertError::InvalidJson { path, cause }) => {
            assert_eq!(path, "bad.json");
            assert!(!cause.to_string().is_empty());
        }
        other => panic!("unexpected result {:?}", other),
    }
}

#[test]
fn malformed_yaml_is_named_invalid_yaml() {
    let r = convert("bad.yml", "a: [1, 2\nb: }");
    match r {
        Err(ConvertError::InvalidYaml { path, .. }) => assert_eq!(path, "bad.yml"),
        other => panic!("unexpected result {:?}", other),
    }
}

#[test]
fn yaml_with_sequence_keys_has_no_json_form() {
    let r = yaml_to_json("keys.yml", "? [1, 2]\n: x\n");
    match r {
        Err(ConvertError::JsonOutput { path, .. }) => assert_eq!(path, "keys.yml"),
        other => panic!("unexpected result {:?}", other),
    }
}

#[test]
fn convert_as_follows_the_given_format() {
    let out = convert_as(Format::Yaml, "anything.txt", "x: [1]").unwrap();
    assert_eq!(json(&out), json(r#"{"x":[1]}"#));
    let out = convert_as(Format::Json, "anything.txt", "[1,2]").unwrap();
    assert_eq!(out, "- 1\n- 2\n");
}

#[test]
fn writer_outcomes_are_handed_on() {
    assert_eq!(yaml_output("o.json", Ok("a: 1\n".to_string())).unwrap(), "a: 1\n");
    assert_eq!(json_output("o.yml", Ok("{}".to_string())).unwrap(), "{}");
    let yaml_err = serde_yaml::from_str::<serde_yaml::Value>("a: [").unwrap_err();
    match yaml_output("o.json", Err(yaml_err)) {
        Err(ConvertError::YamlOutput { path, .. }) => assert_eq!(path, "o.json"),
        other => panic!("unexpected result {:?}", other),
    }
    let json_err = serde_json::from_str::<serde_json::Value>("[").unwrap_err();
    match json_output("o.yml", Err(json_err)) {
        Err(ConvertError::JsonOutput { path, .. }) => assert_eq!(path, "o.yml"),
        other => panic!("unexpected result {:?}", other),
    }
}

#[test]
fn error_reports_its_path() {
    let e = convert("dir/x.cfg", "").unwrap_err();
    assert_eq!(e.path(), "dir/x.cfg");
}
