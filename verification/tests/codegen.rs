use shadow_rs::codegen::{escape, generate, write_const, write_header};
use shadow_rs::store::FactStore;
use shadow_rs::text::{ends_with_char, strip_prefix};
use shadow_rs::value::{ConstType, ConstVal};

#[test]
fn escape_leaves_plain_text() {
    assert_eq!(escape(""), "");
    assert_eq!(escape("main"), "main");
    assert_eq!(escape("rustc 1.45.0 (5c1f21c3b 2020-07-13)"), "rustc 1.45.0 (5c1f21c3b 2020-07-13)");
    assert_eq!(escape("naïve ✓ 'x'"), "naïve ✓ 'x'");
}

#[test]
fn escape_quote_and_backslash() {
    assert_eq!(escape("\""), "\\\"");
    assert_eq!(escape("\\"), "\\\\");
    assert_eq!(escape("a\"b"), "a\\\"b");
    assert_eq!(escape("C:\\dir"), "C:\\\\dir");
    assert_eq!(escape("\\\""), "\\\\\\\"");
}

#[test]
fn escape_line_breaks() {
    assert_eq!(escape("\n"), "\\n");
    assert_eq!(escape("\r"), "\\r");
    assert_eq!(escape("a\r\nb"), "a\\r\\nb");
}

#[test]
fn escape_leaves_tab_and_nul() {
    assert_eq!(escape("\t"), "\t");
    assert_eq!(escape("\0"), "\0");
    assert_eq!(escape("a\tb\0c"), "a\tb\0c");
    assert_eq!(escape("a\r\nb\tc\0"), "a\\r\\nb\tc\0");
}

#[test]
fn value_without_quote_backslash_and_line_break_is_written_as_it_is() {
    for v in ["", "main", "\t", "tab\there", "nul\0", "x 'y' {z} $%&", "ünï ✓"] {
        let val = ConstVal::with_value("the description", v.to_string());
        assert_eq!(
            write_const("some_name", &val),
            format!("/// the description\npub const SOME_NAME :&str = \"{}\";\n\n", v)
        );
    }
}

#[test]
fn block_is_three_lines_whatever_the_value() {
    for v in ["main", "a\nb\n\n", "\r\n", "\"\n\""] {
        let val = ConstVal::with_value("d", v.to_string());
        assert_eq!(write_const("NAME", &val).matches('\n').count(), 3);
    }
    let optional = ConstVal { desc: "d".to_string(), v: "a\nb".to_string(), t: ConstType::OptStr };
    assert_eq!(write_const("NAME", &optional).matches('\n').count(), 3);
}

#[test]
fn description_with_a_line_break_adds_a_line() {
    let val = ConstVal::with_value("one\ntwo", "v".to_string());
    assert_eq!(write_const("NAME", &val).matches('\n').count(), 4);
}

#[test]
fn time_is_written_as_it_is() {
    assert_eq!(escape("2020-08-16 13:48:52"), "2020-08-16 13:48:52");
    assert_eq!(escape("+12020-01-01 00:00:60"), "+12020-01-01 00:00:60");
}

#[test]
fn header_text_is_exact() {
    assert_eq!(
        write_header("2020-08-16 13:48:52"),
        "/// Code generated by shadow-rs generator. DO NOT EDIT.\n\
         /// Author by https://www.github.com/baoyachi\n\
         /// create time by:2020-08-16 13:48:52\n\n"
    );
}

#[test]
fn declaration_text_is_exact() {
    let val = ConstVal::with_value("display current branch", "master".to_string());
    assert_eq!(
        write_const("BRANCH", &val),
        "/// display current branch\npub const BRANCH :&str = \"master\";\n\n"
    );
}

#[test]
fn declaration_name_is_upper_cased() {
    let val = ConstVal::with_value("d", "v".to_string());
    assert_eq!(write_const("branch", &val), "/// d\npub const BRANCH :&str = \"v\";\n\n");
    assert_eq!(write_const("Pkg_Version9", &val), "/// d\npub const PKG_VERSION9 :&str = \"v\";\n\n");
    assert_eq!(write_const("straße", &val), "/// d\npub const STRAßE :&str = \"v\";\n\n");
}

#[test]
fn declaration_value_is_escaped() {
    let val = ConstVal::with_value("d", "say \"hi\"\\\n".to_string());
    assert_eq!(
        write_const("GREETING", &val),
        "/// d\npub const GREETING :&str = \"say \\\"hi\\\"\\\\\\n\";\n\n"
    );
}

#[test]
fn optional_constant_is_written_empty() {
    let val = ConstVal { desc: "d".to_string(), v: "collected".to_string(), t: ConstType::OptStr };
    assert_eq!(write_const("BRANCH", &val), "/// d\npub const BRANCH :&str = \"\";\n\n");
    assert_eq!(write_const("BRANCH", &val), write_const("BRANCH", &ConstVal::new("d")));
}

#[test]
fn generated_file_is_exact() {
    let mut store = FactStore::new();
    store.insert("BRANCH".to_string(), ConstVal::with_value("display current branch", "master".to_string()));
    store.insert("cargo_lock".to_string(), ConstVal::new("display lock"));
    store.insert("PKG_VERSION".to_string(), ConstVal::with_value("display version", "0.3.13".to_string()));
    assert_eq!(
        generate(&store, "2020-08-16 13:48:52"),
        "/// Code generated by shadow-rs generator. DO NOT EDIT.\n\
         /// Author by https://www.github.com/baoyachi\n\
         /// create time by:2020-08-16 13:48:52\n\
         \n\
         /// display current branch\n\
         pub const BRANCH :&str = \"master\";\n\
         \n\
         /// display lock\n\
         pub const CARGO_LOCK :&str = \"\";\n\
         \n\
         /// display version\n\
         pub const PKG_VERSION :&str = \"0.3.13\";\n\
         \n"
    );
}

#[test]
fn generated_file_of_an_empty_store_is_the_header() {
    assert_eq!(generate(&FactStore::new(), "t"), write_header("t"));
}

#[test]
fn every_name_is_declared_once() {
    let mut store = FactStore::new();
    store.insert("A".to_string(), ConstVal::with_value("d", "1".to_string()));
    store.insert("B".to_string(), ConstVal::with_value("d", "2".to_string()));
    store.insert("A".to_string(), ConstVal::with_value("d", "3".to_string()));
    let text = generate(&store, "t");
    assert_eq!(text.matches("pub const A :&str").count(), 1);
    assert_eq!(text.matches("pub const B :&str").count(), 1);
    assert_eq!(text.matches("pub const ").count(), 2);
    assert!(text.contains("pub const A :&str = \"3\";"));
}

#[test]
fn names_that_differ_in_case_alone_share_an_identifier() {
    let mut store = FactStore::new();
    store.insert("branch".to_string(), ConstVal::with_value("d", "1".to_string()));
    store.insert("BRANCH".to_string(), ConstVal::with_value("d", "2".to_string()));
    let text = generate(&store, "t");
    assert_eq!(text.matches("pub const BRANCH :&str").count(), 2);
    assert!(text.contains("pub const BRANCH :&str = \"1\";"));
    assert!(text.contains("pub const BRANCH :&str = \"2\";"));
}

#[test]
fn strip_prefix_takes_the_prefix_off() {
    assert_eq!(strip_prefix("refs/heads/main", "refs/heads/"), Some("main".to_string()));
    assert_eq!(strip_prefix("refs/heads/", "refs/heads/"), Some("".to_string()));
    assert_eq!(strip_prefix("refs/heads/fü/x", "refs/heads/"), Some("fü/x".to_string()));
    assert_eq!(strip_prefix("äbc", "ä"), Some("bc".to_string()));
    assert_eq!(strip_prefix("abc", ""), Some("abc".to_string()));
}

#[test]
fn strip_prefix_wants_the_whole_prefix() {
    assert_eq!(strip_prefix("refs/tags/v1", "refs/heads/"), None);
    assert_eq!(strip_prefix("refs/head", "refs/heads/"), None);
    assert_eq!(strip_prefix("", "refs/heads/"), None);
    assert_eq!(strip_prefix("xrefs/heads/main", "refs/heads/"), None);
}

#[test]
fn ends_with_char_looks_at_the_last_character() {
    assert!(ends_with_char("./out/", '/'));
    assert!(!ends_with_char("./out", '/'));
    assert!(!ends_with_char("", '/'));
    assert!(ends_with_char("/", '/'));
    assert!(ends_with_char("aä", 'ä'));
}
