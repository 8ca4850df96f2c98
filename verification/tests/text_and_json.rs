use mxatools::json::{
    has_setting, is_json, parse_config, parse_rootfs, read_setting, try_parse_config,
    try_parse_rootfs, ConfigError, JsonError,
};
use mxatools::text::{contains_str, replace_all, str_eq, trim_char};

#[test]
fn replace_every_occurrence() {
    assert_eq!(replace_all("a-b-c", "-", "+"), "a+b+c");
    assert_eq!(replace_all("aaaa", "aa", "b"), "bb");
    assert_eq!(replace_all("aaa", "aa", "b"), "ba");
    assert_eq!(replace_all("abc", "x", "y"), "abc");
}

#[test]
fn replace_empty_pattern_everywhere() {
    assert_eq!(replace_all("abc", "", "X"), "abc".replace("", "X"));
    assert_eq!(replace_all("abc", "", "X"), "XaXbXcX");
    assert_eq!(replace_all("", "", "X"), "X");
}

#[test]
fn replace_matches_std() {
    for (s, p, t) in [
        ("{\"user\":\"root\"}", "root", "alice"),
        ("ééé", "é", "e"),
        ("abab", "bab", "x"),
        ("", "a", "b"),
        ("mount false false", "false", "true"),
    ] {
        assert_eq!(replace_all(s, p, t), s.replace(p, t));
    }
}

#[test]
fn replace_with_itself_keeps_text() {
    assert_eq!(replace_all("user root root", "root", "root"), "user root root");
    assert_eq!(replace_all("abc", "", ""), "abc");
}

#[test]
fn trim_quotes() {
    assert_eq!(trim_char("\"root\"", '"'), "root");
    assert_eq!(trim_char("\"\"\"", '"'), "");
    assert_eq!(trim_char("false", '"'), "false");
    assert_eq!(trim_char("\"a\"b\"", '"'), "a\"b");
}

#[test]
fn equality_and_search() {
    assert!(str_eq("sid", "sid"));
    assert!(!str_eq("sid", "si"));
    assert!(contains_str("Repository or file not found", "file not"));
    assert!(!contains_str("nameserver 8.8.8.8", "not found"));
    assert!(contains_str("abc", ""));
}

#[test]
fn config_value_keeps_json_text() {
    let text = "{\"user\":\"root\",\"mount_sd\":false,\"n\":3}";
    assert_eq!(parse_config(text, "user"), Some("\"root\"".to_string()));
    assert_eq!(parse_config(text, "mount_sd"), Some("false".to_string()));
    assert_eq!(parse_config(text, "n"), Some("3".to_string()));
    assert_eq!(parse_config(text, "lang"), None);
    assert_eq!(try_parse_config(text, "user"), Ok(Some("\"root\"".to_string())));
}

#[test]
fn config_value_of_non_object() {
    assert_eq!(parse_config("[1,2]", "user"), None);
    assert_eq!(parse_config("\"user\"", "user"), None);
}

#[test]
fn config_nested_value_text() {
    let text = "{\"a\":{\"b\":[1, 2]}}";
    assert_eq!(parse_config(text, "a"), Some("{\"b\":[1,2]}".to_string()));
}

#[test]
fn config_malformed() {
    assert!(!is_json("{\"user\":"));
    assert!(!is_json(""));
    assert!(is_json(" {} "));
    assert_eq!(try_parse_config("{\"user\":", "user"), Err(JsonError::Malformed));
    assert_eq!(try_parse_config("", "user"), Err(JsonError::Malformed));
}

#[test]
fn rootfs_lookup() {
    let text = "{\"debian\":{\"bookworm\":\"https://mirrors.bfsu.edu.cn/lxc-images/images/debian/bookworm/\",\"sid\":3}}";
    assert_eq!(
        parse_rootfs(text, "debian", "bookworm"),
        Some("https://mirrors.bfsu.edu.cn/lxc-images/images/debian/bookworm/".to_string())
    );
    assert_eq!(parse_rootfs(text, "debian", "sid"), None);
    assert_eq!(parse_rootfs(text, "debian", "buster"), None);
    assert_eq!(parse_rootfs(text, "ubuntu", "jammy"), None);
    assert_eq!(parse_rootfs("{\"debian\":\"x\"}", "debian", "sid"), None);
    assert_eq!(try_parse_rootfs("nope", "debian", "sid"), Err(JsonError::Malformed));
    assert_eq!(try_parse_rootfs(text, "debian", "sid"), Ok(None));
}

#[test]
fn setting_without_quotes() {
    let text = "{\"lang\":\"C.UTF-8\"}";
    assert_eq!(read_setting(text, "lang"), Ok("C.UTF-8".to_string()));
    assert_eq!(read_setting(text, "user"), Err(ConfigError::Missing("user".to_string())));
    assert_eq!(read_setting("{", "user"), Err(ConfigError::Malformed));
    assert!(has_setting(text, "lang"));
    assert!(!has_setting(text, "user"));
    assert!(!has_setting("{", "lang"));
}
