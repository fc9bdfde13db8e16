use docker_native_manager::config::{
    clear_current_context, current_context, insert_current_context, read_config_json,
    read_current_context, remove_current_context, set_current_context, write_config_json, ConfigFile,
};

fn content(text: &str) -> ConfigFile {
    ConfigFile::Content(text.to_string())
}

/// An object that holds an array in an array and so on, with so many levels in all.
fn nested(levels: usize) -> String {
    format!("{{\"deep\":{}{}}}", "[".repeat(levels - 1), "]".repeat(levels - 1))
}

#[test]
fn a_missing_file_is_an_empty_configuration() {
    let config = read_config_json(&ConfigFile::Missing).unwrap();
    assert!(config.is_object());
    assert_eq!(config.as_object().unwrap().len(), 0);
    assert_eq!(read_current_context(&ConfigFile::Missing), None);
}

#[test]
fn an_unreadable_file_is_reported() {
    let file = ConfigFile::Unreadable("permission denied".to_string());
    let error = "Failed to read Docker config: permission denied";
    assert_eq!(read_config_json(&file).unwrap_err(), error);
    assert_eq!(set_current_context(&file, "x").unwrap_err(), error);
    assert_eq!(clear_current_context(&file).unwrap_err(), error);
    assert_eq!(read_current_context(&file), None);
}

#[test]
fn a_malformed_file_is_reported() {
    let file = content("{");
    let error = "Failed to parse Docker config: EOF while parsing an object at line 1 column 1";
    assert_eq!(read_config_json(&file).unwrap_err(), error);
    assert_eq!(set_current_context(&file, "x").unwrap_err(), error);
    assert_eq!(clear_current_context(&file).unwrap_err(), error);
    assert_eq!(read_current_context(&file), None);
}

#[test]
fn the_current_context_is_read() {
    assert_eq!(
        read_current_context(&content("{\"currentContext\": \"remote\"}")),
        Some("remote".to_string())
    );
    assert_eq!(read_current_context(&content("{\"currentContext\": 7}")), None);
    assert_eq!(read_current_context(&content("{\"currentContext\": null}")), None);
    assert_eq!(read_current_context(&content("{\"other\": \"remote\"}")), None);
    assert_eq!(read_current_context(&content("[\"currentContext\"]")), None);
    assert_eq!(read_current_context(&content("\"currentContext\"")), None);
}

#[test]
fn set_then_read() {
    let text = set_current_context(&ConfigFile::Missing, "remote").unwrap();
    assert_eq!(text, "{\n  \"currentContext\": \"remote\"\n}");
    assert_eq!(read_current_context(&content(&text)), Some("remote".to_string()));
}

#[test]
fn set_then_read_of_any_name() {
    for name in ["", "a b", "\"quoted\"", "back\\slash", "line\nbreak", "\u{1}\u{7f}", "h\u{f6}he \u{1f433}"] {
        let text = set_current_context(&content("{\"a\":1}"), name).unwrap();
        assert_eq!(read_current_context(&content(&text)), Some(name.to_string()));
    }
}

#[test]
fn clear_then_read() {
    let text = clear_current_context(&content("{\"currentContext\": \"remote\"}")).unwrap();
    assert_eq!(text, "{}");
    assert_eq!(read_current_context(&content(&text)), None);
}

#[test]
fn other_members_are_kept() {
    let file = content("{\"auths\":{\"hub\":{}},\"currentContext\":\"a\",\"n\":[1,-2,true,null,\"x\"]}");
    let set = set_current_context(&file, "b").unwrap();
    let kept = "  \"auths\": {\n    \"hub\": {}\n  },\n";
    let list = "  \"n\": [\n    1,\n    -2,\n    true,\n    null,\n    \"x\"\n  ]\n}";
    assert_eq!(set, format!("{{\n{}  \"currentContext\": \"b\",\n{}", kept, list));
    let cleared = clear_current_context(&file).unwrap();
    assert_eq!(cleared, format!("{{\n{}{}", kept, list));
}

#[test]
fn the_last_name_set_stays() {
    let first = set_current_context(&ConfigFile::Missing, "first").unwrap();
    let last = set_current_context(&content(&first), "last").unwrap();
    assert_eq!(last, set_current_context(&ConfigFile::Missing, "last").unwrap());
}

#[test]
fn clearing_undoes_setting() {
    let file = content("{\"a\":18446744073709551615,\"b\":-9223372036854775808}");
    let set = set_current_context(&file, "remote").unwrap();
    let cleared = clear_current_context(&content(&set)).unwrap();
    assert_eq!(cleared, clear_current_context(&file).unwrap());
    assert_eq!(cleared, clear_current_context(&content(&cleared)).unwrap());
}

#[test]
fn what_is_not_an_object_stays() {
    let file = content("[1, 2]");
    assert_eq!(set_current_context(&file, "x").unwrap(), "[\n  1,\n  2\n]");
    assert_eq!(clear_current_context(&file).unwrap(), "[\n  1,\n  2\n]");
    assert_eq!(read_current_context(&content("[\n  1,\n  2\n]")), None);
}

#[test]
fn configurations_nest_up_to_the_limit() {
    let set = set_current_context(&content(&nested(127)), "deep").unwrap();
    assert_eq!(read_current_context(&content(&set)), Some("deep".to_string()));
    let error = read_config_json(&content(&nested(128))).unwrap_err();
    assert!(error.starts_with("Failed to parse Docker config: recursion limit exceeded"));
}

#[test]
fn floating_point_numbers_do_not_hinder() {
    for number in ["0.1", "-0", "8.9e307", "-8.98846567431158e307", "5e-324", "1e16", "123456789012345678901234567890"] {
        let set = set_current_context(&content(&format!("{{\"f\":[{}]}}", number)), "x").unwrap();
        assert_eq!(read_current_context(&content(&set)), Some("x".to_string()));
    }
}

#[test]
fn values_are_changed_in_place() {
    let mut config = read_config_json(&content("{\"a\":1}")).unwrap();
    assert_eq!(current_context(&config), None);
    insert_current_context(&mut config, "here");
    assert_eq!(current_context(&config), Some("here".to_string()));
    assert_eq!(config.get("a").and_then(|v| v.as_u64()), Some(1));
    remove_current_context(&mut config);
    assert_eq!(current_context(&config), None);
    assert_eq!(write_config_json(&config).unwrap(), "{\n  \"a\": 1\n}");

    let mut number = serde_json::Value::from(3);
    insert_current_context(&mut number, "here");
    remove_current_context(&mut number);
    assert_eq!(number, serde_json::Value::from(3));
}

#[test]
fn the_largest_numbers_are_read_back() {
    for below in 0..20_000u64 {
        let number = f64::from_bits(f64::MAX.to_bits() - below);
        for signed in [number, -number] {
            let mut config = read_config_json(&ConfigFile::Missing).unwrap();
            let members = config.as_object_mut().unwrap();
            members.insert("f".to_string(), serde_json::Value::from(signed));
            let file = content(&write_config_json(&config).unwrap());
            let set = set_current_context(&file, "x").unwrap();
            assert_eq!(read_current_context(&content(&set)), Some("x".to_string()));
        }
    }
}

#[test]
fn clearing_restores_what_was_there() {
    let file = content("{\n  \"a\": [\n    1\n  ]\n}");
    let set = set_current_context(&file, "remote").unwrap();
    let cleared = clear_current_context(&content(&set)).unwrap();
    assert_eq!(read_config_json(&content(&cleared)), read_config_json(&file));
    assert_eq!(cleared, "{\n  \"a\": [\n    1\n  ]\n}");
}
