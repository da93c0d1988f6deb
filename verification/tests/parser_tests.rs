use github_verify::json::parse_github_user;

fn base_with(extra: &str) -> String {
    let mut b = String::new();
    b.push_str("{\"login\":\"u\",\"id\":1,\"avatar_url\":\"a\",\"html_url\":\"h\",");
    b.push_str(extra);
    b.push_str("\"public_repos\":0,\"followers\":0,\"following\":0}");
    b
}

#[test]
fn parses_required_only() {
    let u = parse_github_user(&base_with("")).unwrap();
    assert_eq!(u.login, "u");
    assert_eq!(u.id, 1);
    assert_eq!(u.avatar_url, "a");
    assert_eq!(u.html_url, "h");
    assert!(u.name.is_none());
    assert!(u.company.is_none());
    assert!(u.blog.is_none());
    assert!(u.location.is_none());
    assert!(u.bio.is_none());
    assert_eq!(u.public_repos, 0);
    assert_eq!(u.followers, 0);
    assert_eq!(u.following, 0);
}

#[test]
fn whitespace_between_tokens_is_fine() {
    let body = " { \"login\" : \"u\" ,\n\t\"id\" : 1 , \"avatar_url\" : \"a\" , \"html_url\" : \"h\" , \"public_repos\" : 0 , \"followers\" : 0 , \"following\" : 0 } ";
    let u = parse_github_user(body).unwrap();
    assert_eq!(u.login, "u");
}

#[test]
fn string_escapes_are_decoded() {
    let u = parse_github_user(&base_with(
        "\"bio\":\"line\\nbreak \\\"q\\\" back\\\\slash \\/ \\t \\b \\f \\r\",",
    ))
    .unwrap();
    assert_eq!(
        u.bio.as_deref(),
        Some("line\nbreak \"q\" back\\slash / \t \u{8} \u{c} \r")
    );
}

#[test]
fn unicode_escapes_are_decoded() {
    let u = parse_github_user(&base_with("\"name\":\"\\u0041\\u00e9\\u4e2d\",")).unwrap();
    assert_eq!(u.name.as_deref(), Some("A\u{e9}\u{4e2d}"));
}

#[test]
fn surrogate_pair_escape_is_decoded() {
    let u = parse_github_user(&base_with("\"name\":\"\\ud834\\udd1e\",")).unwrap();
    assert_eq!(u.name.as_deref(), Some("\u{1d11e}"));
}

#[test]
fn lone_surrogate_escape_fails() {
    assert!(parse_github_user(&base_with("\"name\":\"\\ud834\",")).is_none());
    assert!(parse_github_user(&base_with("\"name\":\"\\udd1e\",")).is_none());
}

#[test]
fn raw_unicode_in_strings_is_kept() {
    let u = parse_github_user(&base_with("\"location\":\"Z\u{fc}rich \u{1f600}\",")).unwrap();
    assert_eq!(u.location.as_deref(), Some("Z\u{fc}rich \u{1f600}"));
}

#[test]
fn unescaped_control_character_fails() {
    assert!(parse_github_user(&base_with("\"name\":\"a\u{1}b\",")).is_none());
}

#[test]
fn unknown_fields_are_skipped() {
    let u = parse_github_user(&base_with(
        "\"type\":\"User\",\"plan\":{\"name\":\"free\",\"space\":[1,-2.5e3,true,null,{}]},\"site_admin\":false,\"hireable\":true,\"extra\":[[],{}],",
    ))
    .unwrap();
    assert_eq!(u.login, "u");
    assert!(u.name.is_none());
}

#[test]
fn duplicate_known_field_fails() {
    assert!(parse_github_user(&base_with("\"login\":\"again\",")).is_none());
    assert!(parse_github_user(&base_with("\"name\":null,\"name\":\"x\",")).is_none());
}

#[test]
fn number_shapes_for_typed_fields() {
    // a fraction, an exponent, a minus sign, a leading zero: none fits an
    // unsigned integer field
    assert!(parse_github_user(&base_with("\"public_repos\":1.0,").replace("\"public_repos\":0,", "")).is_none());
    let mut b = String::new();
    b.push_str("{\"login\":\"u\",\"id\":1,\"avatar_url\":\"a\",\"html_url\":\"h\",");
    b.push_str("\"public_repos\":1e2,\"followers\":0,\"following\":0}");
    assert!(parse_github_user(&b).is_none());
    let b2 = b.replace("1e2", "-1");
    assert!(parse_github_user(&b2).is_none());
    let b3 = b.replace("1e2", "007");
    assert!(parse_github_user(&b3).is_none());
    let b4 = b.replace("1e2", "10");
    assert_eq!(parse_github_user(&b4).unwrap().public_repos, 10);
}

#[test]
fn integer_bounds_are_enforced() {
    let b = base_with("").replace("\"id\":1", "\"id\":18446744073709551615");
    assert_eq!(parse_github_user(&b).unwrap().id, 18446744073709551615);
    let b2 = base_with("").replace("\"id\":1", "\"id\":18446744073709551616");
    assert!(parse_github_user(&b2).is_none());
    let b3 = base_with("").replace("\"followers\":0", "\"followers\":4294967295");
    assert_eq!(parse_github_user(&b3).unwrap().followers, 4294967295);
    let b4 = base_with("").replace("\"followers\":0", "\"followers\":4294967296");
    assert!(parse_github_user(&b4).is_none());
}

#[test]
fn null_for_required_string_fails() {
    let b = base_with("").replace("\"avatar_url\":\"a\"", "\"avatar_url\":null");
    assert!(parse_github_user(&b).is_none());
}

#[test]
fn empty_object_fails() {
    assert!(parse_github_user("{}").is_none());
    assert!(parse_github_user(" { } ").is_none());
}

#[test]
fn malformed_syntax_fails() {
    assert!(parse_github_user("{\"login\" \"u\"}").is_none());
    assert!(parse_github_user(&base_with("\"name\":,")).is_none());
    let mut unterminated = String::from("{\"login\":\"u");
    assert!(parse_github_user(&unterminated).is_none());
    unterminated.push('"');
    assert!(parse_github_user(&unterminated).is_none());
    assert!(parse_github_user("{\"a\":[1,}]").is_none());
    assert!(parse_github_user("{\"a\":tru}").is_none());
    assert!(parse_github_user("true").is_none());
}
