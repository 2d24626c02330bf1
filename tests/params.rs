use protoc_gen_prost_serde::grammar::tokenize;
use protoc_gen_prost_serde::params::Parameters;

fn parse(s: &str) -> Parameters {
    match s.parse::<Parameters>() {
        Ok(p) => p,
        Err(e) => panic!("{} did not parse: {}", s, e.message()),
    }
}

fn rejected(s: &str) -> String {
    match s.parse::<Parameters>() {
        Ok(_) => panic!("{} parsed", s),
        Err(e) => e.parameter().to_string(),
    }
}

fn pairs(p: &Parameters) -> Vec<(String, String)> {
    p.extern_path().clone()
}

fn pair(a: &str, b: &str) -> (String, String) {
    (a.to_string(), b.to_string())
}

#[test]
fn empty_string_gives_defaults() {
    let p = parse("");
    assert_eq!(p.configured_package_filename(), None);
    assert_eq!(p.default_package_filename(), "_");
    assert!(pairs(&p).is_empty());
    assert!(!p.retain_enum_prefix());
}

#[test]
fn default_package_filename_is_set() {
    let p = parse("default_package_filename=foo");
    assert_eq!(p.default_package_filename(), "foo");
    assert_eq!(p.configured_package_filename(), Some("foo"));
}

#[test]
fn default_package_filename_falls_back_to_underscore() {
    let p = parse("retain_enum_prefix");
    assert_eq!(p.default_package_filename(), "_");
}

#[test]
fn default_package_filename_without_key_unsets() {
    let p = parse("default_package_filename=foo,default_package_filename");
    assert_eq!(p.configured_package_filename(), None);
    assert_eq!(p.default_package_filename(), "_");
}

#[test]
fn default_package_filename_with_value_is_rejected() {
    assert_eq!(rejected("default_package_filename=a=b"), "default_package_filename=a=b");
}

#[test]
fn retain_enum_prefix_forms() {
    assert!(parse("retain_enum_prefix").retain_enum_prefix());
    assert!(parse("retain_enum_prefix=true").retain_enum_prefix());
    assert!(!parse("retain_enum_prefix=false").retain_enum_prefix());
    assert!(parse("retain_enum_prefix,retain_enum_prefix=false").retain_enum_prefix());
}

#[test]
fn retain_enum_prefix_other_key_is_rejected() {
    assert_eq!(rejected("retain_enum_prefix=yes"), "retain_enum_prefix=yes");
    assert_eq!(rejected("retain_enum_prefix=true=x"), "retain_enum_prefix=true=x");
}

#[test]
fn extern_path_single_pair() {
    let p = parse("extern_path=.foo.Bar=crate::bar::Bar");
    assert_eq!(pairs(&p), vec![pair(".foo.Bar", "crate::bar::Bar")]);
}

#[test]
fn extern_path_two_pairs_in_order() {
    let p = parse("extern_path=.foo.Bar=crate::bar::Bar,extern_path=.baz=crate::baz");
    assert_eq!(
        pairs(&p),
        vec![pair(".foo.Bar", "crate::bar::Bar"), pair(".baz", "crate::baz")]
    );
}

#[test]
fn extern_path_same_proto_path_kept_twice() {
    let p = parse("extern_path=.foo=a,extern_path=.foo=b");
    assert_eq!(pairs(&p), vec![pair(".foo", "a"), pair(".foo", "b")]);
}

#[test]
fn extern_path_without_value_is_rejected() {
    assert_eq!(rejected("extern_path=.foo"), "extern_path=.foo");
    assert_eq!(rejected("extern_path"), "extern_path");
}

#[test]
fn escaped_comma_stays_in_value() {
    let p = parse("extern_path=.foo=a\\,b");
    assert_eq!(pairs(&p), vec![pair(".foo", "a\\,b")]);
}

#[test]
fn escaped_comma_then_next_entry() {
    let p = parse("extern_path=.foo=a\\,b,retain_enum_prefix");
    assert_eq!(pairs(&p), vec![pair(".foo", "a\\,b")]);
    assert!(p.retain_enum_prefix());
}

#[test]
fn escaped_backslash_does_not_escape_the_comma() {
    let p = parse("extern_path=.a=x\\\\,extern_path=.b=y");
    assert_eq!(pairs(&p), vec![pair(".a", "x\\\\"), pair(".b", "y")]);
}

#[test]
fn escaped_backslash_then_escaped_comma() {
    let p = parse("extern_path=.a=x\\\\\\,y");
    assert_eq!(pairs(&p), vec![pair(".a", "x\\\\\\,y")]);
}

#[test]
fn unknown_name_is_rejected_with_its_text() {
    assert_eq!(rejected("bogus_flag"), "bogus_flag");
    assert_eq!(rejected("retain_enum_prefix,bogus=1"), "bogus=1");
}

#[test]
fn first_rejected_entry_is_reported() {
    assert_eq!(rejected("a,b"), "a");
}

#[test]
fn rejected_text_keeps_white_space() {
    assert_eq!(rejected(" bogus "), " bogus ");
}

#[test]
fn name_white_space_is_trimmed() {
    let p = parse(" retain_enum_prefix , extern_path=.a=b");
    assert!(p.retain_enum_prefix());
    assert_eq!(pairs(&p), vec![pair(".a", "b")]);
}

#[test]
fn stray_separators_are_skipped() {
    let p = parse(",,retain_enum_prefix,,=");
    assert!(p.retain_enum_prefix());
}

#[test]
fn invalid_parameter_message() {
    match "bogus_flag".parse::<Parameters>() {
        Ok(_) => panic!("parsed"),
        Err(e) => assert_eq!(e.message(), "invalid parameter: bogus_flag"),
    }
}

fn regex_entries(s: &str) -> Vec<(String, String, Option<String>, Option<String>)> {
    let re = regex::Regex::new(
        r"(?:(?P<param>[^,=]+)(?:=(?P<key>[^,=]+)(?:=(?P<value>(?:[^,=\\]|\\,|\\)+))?)?)",
    )
    .unwrap();
    re.captures_iter(s)
        .map(|c| {
            (
                c.get(0).unwrap().as_str().to_string(),
                c.get(1).unwrap().as_str().trim().to_string(),
                c.get(2).map(|m| m.as_str().to_string()),
                c.get(3).map(|m| m.as_str().to_string()),
            )
        })
        .collect()
}

#[test]
fn tokenizer_agrees_with_pattern() {
    let cases = [
        "",
        "a",
        "a=b",
        "a=b=c",
        "a=b=c=d",
        "a==b",
        "=a",
        "a=,b",
        "a=b=,c",
        "a=b=c\\,d,e",
        "a=b=\\",
        "a=b=\\x\\",
        "a=b=c\\=d",
        " x = y = z ",
        "é=ü=ß,ñ",
        ",,,",
        "a,b,,c=d",
    ];
    for s in cases {
        let mine: Vec<(String, String, Option<String>, Option<String>)> = tokenize(s)
            .into_iter()
            .map(|e| (e.text, e.name, e.key, e.value))
            .collect();
        assert_eq!(mine, regex_entries(s), "entries of {:?}", s);
    }
}

#[test]
fn unicode_white_space_around_name_is_trimmed() {
    let p = parse("\u{3000}retain_enum_prefix\u{a0}");
    assert!(p.retain_enum_prefix());
}
