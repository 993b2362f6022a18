use shadow_rs::channel::{build_channel, BuildRustChannel};
use shadow_rs::value::{ConstType, ConstVal};

#[test]
fn new_value_is_the_fallback() {
    let val = ConstVal::new("display current branch");
    assert_eq!(val.desc, "display current branch");
    assert_eq!(val.v, "");
    assert_eq!(val.t, ConstType::OptStr);
    assert_eq!(val.literal(), "");
}

#[test]
fn value_with_literal_is_a_plain_string() {
    let val = ConstVal::with_value("d", "main".to_string());
    assert_eq!(val.desc, "d");
    assert_eq!(val.v, "main");
    assert_eq!(val.t, ConstType::Str);
    assert_eq!(val.literal(), "main");
}

#[test]
fn optional_value_keeps_what_was_collected() {
    let val = ConstVal::optional("d", "true".to_string());
    assert_eq!(val.desc, "d");
    assert_eq!(val.v, "true");
    assert_eq!(val.t, ConstType::OptStr);
    assert_eq!(val.literal(), "");
}

#[test]
fn from_option_is_known_or_fallback() {
    assert_eq!(
        ConstVal::from_option("d", Some("x".to_string())),
        ConstVal::with_value("d", "x".to_string())
    );
    assert_eq!(ConstVal::from_option("d", None), ConstVal::new("d"));
}

#[test]
fn set_makes_the_value_known() {
    let mut val = ConstVal::new("d");
    val.set("abc".to_string());
    assert_eq!(val, ConstVal::with_value("d", "abc".to_string()));
}

#[test]
fn optional_value_has_an_empty_literal_whatever_it_holds() {
    let val = ConstVal { desc: "d".to_string(), v: "collected".to_string(), t: ConstType::OptStr };
    assert_eq!(val.literal(), "");
}

#[test]
fn every_constant_is_declared_as_a_string() {
    assert_eq!(ConstType::Str.declared_type(), "&str");
    assert_eq!(ConstType::OptStr.declared_type(), "&str");
}

#[test]
fn clone_of_a_value_is_equal() {
    let val = ConstVal::with_value("d", "v".to_string());
    assert_eq!(val.clone(), val);
}

#[test]
fn channel_names() {
    assert_eq!(BuildRustChannel::Debug.to_string(), "debug");
    assert_eq!(BuildRustChannel::Release.to_string(), "release");
    assert_eq!(build_channel(true), BuildRustChannel::Debug);
    assert_eq!(build_channel(false), BuildRustChannel::Release);
    assert_eq!(BuildRustChannel::default(), BuildRustChannel::Debug);
}
