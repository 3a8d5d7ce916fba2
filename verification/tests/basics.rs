use weiback::error::{format_error, inconsistent, Error};
use weiback::hash::{sha256, stable_hash};
use weiback::json::Json;
use weiback::paths;
use weiback::paths::PathPart;
use weiback::text;

fn hex(bytes: &[u8]) -> String {
    bytes.iter().map(|b| format!("{b:02x}")).collect()
}

#[test]
fn objects_are_equal_however_they_were_built() {
    let mut built = Json::empty_object();
    for key in ["b", "a", "\u{e9}", "B", "a"] {
        built.insert(key, Json::Text("x".into()));
    }
    built.insert("b", Json::integer(3));
    built.insert("a", Json::integer(-3));
    let read = Json::parse("{\"\u{e9}\":\"x\",\"a\":-3,\"b\":3,\"B\":\"x\"}").unwrap();
    assert_eq!(built, read);
    assert_eq!(built.to_text(), read.to_text());
}

#[test]
fn errors_carry_their_message() {
    assert!(matches!(format_error("a"), Error::FormatError(m) if m == "a"));
    assert!(matches!(inconsistent("b"), Error::InconsistentTask(m) if m == "b"));
    assert_eq!(Error::DbError("c".into()).message(), "c");
    assert_eq!(Error::Tokio("d".into()).message(), "d");
}

#[test]
fn stable_hash_is_fnv() {
    assert_eq!(stable_hash(""), 0xcbf29ce484222325);
    assert_eq!(stable_hash("a"), 0xaf63dc4c8601ec8c);
    assert_eq!(stable_hash("foobar"), 0x85944171f73967e8);
}

#[test]
fn digests_match_published_values() {
    assert_eq!(
        hex(&sha256(b"")),
        "e3b0c44298fc1c149afbf4c8996fb92427ae41e4649b934ca495991b7852b855"
    );
    assert_eq!(
        hex(&sha256(b"abc")),
        "ba7816bf8f01cfea414140de5dae2223b00361a396177a9cb410ff61f20015ad"
    );
    assert_eq!(
        hex(&sha256("a".repeat(56).as_bytes())),
        "b35439a4ac6f0948b6d6f9e3c6af0f5f590ce20f1bde7090ef7970686ec6738a"
    );
    assert_eq!(
        hex(&sha256("a".repeat(64).as_bytes())),
        "ffe054fe7ae0cb6dc65c3af9b61d5209f439851db43d0ba5997337df154668eb"
    );
    assert_eq!(
        hex(&sha256("a".repeat(1000).as_bytes())),
        "41edece42d63e8d9bf515a9ba6932e1c20cbc9f5a5d134645adb5db1b9737ea3"
    );
}

#[test]
fn integers_read_back() {
    for n in [0, 7, -7, i64::MAX, i64::MIN, 1_000_000_007] {
        assert_eq!(text::i64_text(n), n.to_string());
        assert_eq!(text::parse_i64(&text::i64_text(n)), Some(n));
    }
    assert_eq!(text::u64_text(u64::MAX), u64::MAX.to_string());
    for s in ["", "+", "-", "1x", " 1", "9223372036854775808", "-9223372036854775809", "--1"] {
        assert_eq!(text::parse_i64(s), None, "{s:?}");
    }
    assert_eq!(text::parse_i64("+007"), Some(7));
    assert_eq!(text::hex_text(255, 4), "00ff");
    assert_eq!(text::hex_text(0x12345, 2), "45");
    assert_eq!(text::hex_text(0, 16), "0000000000000000");
}

#[test]
fn texts_are_cut_and_compared() {
    assert!(text::starts_with("小明a", "小") && !text::starts_with("a", "ab"));
    assert!(text::ends_with("x.part", ".part") && !text::ends_with("part", ".part"));
    assert!(text::contains_text("abcabd", "abd") && !text::contains_text("ab", "abc"));
    assert!(text::contains_text("x", ""));
    assert_eq!(text::to_lower("AbZ-9é"), "abz-9é");
    assert!(text::is_blank(" \t\n\u{3000}") && !text::is_blank(" x "));
    assert_eq!(text::trim("  a b \n"), "a b");
    assert_eq!(text::split_words(" a  b\tc "), vec!["a", "b", "c"]);
    assert!(text::split_words(" ").is_empty());
    assert_eq!(text::cut_at("image/png; q=1", ';'), "image/png");
    assert_eq!(text::cut_at("plain", ';'), "plain");
    assert_eq!(text::keep_alphanumerics("x-API_key.1"), "xAPIkey1");
    assert_eq!(text::replace_char("a\\b\\c", '\\', '/'), "a/b/c");
    assert!(text::is_listed(&vec!["a".into(), "b".into()], "b"));
    assert!(!text::is_listed(&Vec::new(), "b"));
    assert_eq!(text::slice_text(&text::chars_of("小明abc"), 1, 3), "明a");
}

#[test]
fn order_puts_one_character_first() {
    assert!(text::is_before("a/b", "a.b", '/'));
    assert!(text::is_before("a", "b", '/'));
    assert!(!text::is_before("b", "a", '/'));
    assert!(text::is_before("a", "ab", '/'));
    assert!(!text::is_before("a", "a", '/'));
}

#[test]
fn paths_fall_into_components() {
    assert_eq!(
        paths::components("/a/./b/../c"),
        vec![
            PathPart::Root,
            PathPart::Normal("a".into()),
            PathPart::Normal("b".into()),
            PathPart::Parent,
            PathPart::Normal("c".into()),
        ]
    );
    assert_eq!(paths::components("./a"), vec![PathPart::Current, PathPart::Normal("a".into())]);
    assert!(paths::components("").is_empty());
    assert!(paths::is_absolute("/a") && !paths::is_absolute("a"));
    for path in ["a", "a/b", "a//b/"] {
        assert!(paths::is_plain_relative(path), "{path:?}");
    }
    for path in ["", "/", "/a", "../a", "a/..", "./a"] {
        assert!(!paths::is_plain_relative(path), "{path:?}");
    }
    assert_eq!(paths::join("a", "b"), "a/b");
    assert_eq!(paths::join("a/", "b"), "a/b");
    assert_eq!(paths::join("a", "/b"), "/b");
    assert_eq!(paths::join("", "b"), "b");
    assert!(paths::starts_with("/a/b/c", "/a/b"));
    assert!(!paths::starts_with("/a/bc", "/a/b"));
    assert_eq!(paths::file_name("a/b.txt/").as_deref(), Some("b.txt"));
    assert_eq!(paths::file_name("a/..").as_deref(), None);
    assert_eq!(paths::extension("a/b.tar.gz").as_deref(), Some("gz"));
    assert_eq!(paths::extension("a/.bashrc").as_deref(), None);
    assert_eq!(paths::parent("a/b").as_deref(), Some("a"));
    assert_eq!(paths::parent("a").as_deref(), Some(""));
    assert_eq!(paths::parent("/").as_deref(), None);
    assert!(paths::same_path("a//b/", "a/./b"));
    assert!(!paths::same_path("a/b", "a/c"));
    assert_eq!(paths::split_at("a/b\\c", '/', '\\'), vec!["a", "b", "c"]);
}

#[test]
fn paths_of_windows_know_drives_and_backslashes() {
    assert_eq!(paths::with_slashes("a/b", true), "a/b");
    assert_eq!(paths::with_slashes("a\\b/c", true), "a/b/c");
    assert_eq!(paths::with_slashes("a\\b/c", false), "a\\b/c");
    for path in ["a", "a\\b", "a/b\\c.jpg", "a/C:b"] {
        assert!(paths::is_names_only(path, true), "{path:?}");
    }
    for path in ["..\\x", "a\\..\\b", "C:x", "c:\\x", "\\x", "\\\\host\\share", "/x", ""] {
        assert!(!paths::is_names_only(path, true), "{path:?}");
    }
    for path in ["..\\x", "C:x", "\\x"] {
        assert!(paths::is_names_only(path, false), "{path:?}");
    }
    assert!(paths::has_drive("Z:") && !paths::has_drive("1:") && !paths::has_drive("Z"));
}

#[test]
fn joined_names_extend_a_path() {
    let base = "media/pictures";
    let whole = paths::join(base, "x.jpg");
    assert!(paths::is_plain_relative(&whole));
    assert_eq!(paths::file_name(&whole).as_deref(), Some("x.jpg"));
    assert!(paths::starts_with(&whole, base));
}

#[test]
fn json_reads_back_what_it_writes() {
    let source = r#"{"b":[1,-2,true,null,"小\n\"x\""],"a":{"c":18446744073709551615},"f":1.5}"#;
    let value = Json::parse(source).unwrap();
    let text = value.to_text();
    assert!(!text.contains('\n'));
    assert_eq!(Json::parse(&text).unwrap(), value);
    assert_eq!(value.get("a").unwrap().u64_field("c"), Some(u64::MAX));
    assert_eq!(value.get("a").unwrap().get("c").unwrap().as_i64(), None);
    assert_eq!(value.get("f").unwrap().as_u64(), None);
    match value.get("b").unwrap() {
        Json::Array(items) => {
            assert_eq!(items[1].as_i64(), Some(-2));
            assert_eq!(items[1].as_u64(), None);
            assert_eq!(items[2].as_bool(), Some(true));
            assert!(items[3].is_null());
            assert_eq!(items[4].as_str(), Some("小\n\"x\""));
        }
        _ => panic!("not an array"),
    }
    assert!(Json::parse("{").is_err());
    assert_eq!(Json::parse("[1,2").unwrap_err(), "EOF while parsing a list at line 1 column 4");
}

#[test]
fn last_entry_of_a_key_counts() {
    let mut value = Json::parse(r#"{"a":1,"a":2}"#).unwrap();
    assert_eq!(value.u64_field("a"), Some(2));
    value.insert("a", Json::Text("x".into()));
    value.insert("b", Json::Bool(false));
    assert_eq!(value.str_field("a"), Some("x"));
    assert_eq!(value.bool_field("b"), Some(false));
    assert_eq!(value.str_field("c"), None);
    assert_eq!(value.to_text(), r#"{"a":"x","b":false}"#);
    let copy = value.clone();
    assert_eq!(copy.to_text(), value.to_text());
    assert_eq!(Json::empty_object().to_text(), "{}");
}
