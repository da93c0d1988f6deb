use github_verify::command::lookup_request;
use github_verify::command::register;
use github_verify::command::CommandOptionKind;
use github_verify::command::ResolvedArg;
use github_verify::profile::GitHubUser;
use github_verify::render::build_url;
use github_verify::render::fetch_failed_reply;
use github_verify::render::invalid_input_reply;
use github_verify::render::render_profile;
use github_verify::render::u32_to_string;

#[test]
fn descriptor_has_verify_and_one_required_string_option() {
    let d = register();
    assert_eq!(d.name, "verify");
    assert_eq!(d.description, "Get some GitHub information");
    assert_eq!(d.options.len(), 1);
    assert!(matches!(d.options[0].kind, CommandOptionKind::Text));
    assert_eq!(d.options[0].name, "string");
    assert_eq!(d.options[0].description, "GitHub Username");
    assert!(d.options[0].required);
}

#[test]
fn no_options_is_invalid_input() {
    let r = lookup_request(&vec![]);
    assert_eq!(
        r.unwrap_err(),
        "Invalid input. Please provide a GitHub username."
    );
}

#[test]
fn non_string_first_option_is_invalid_input() {
    let r = lookup_request(&vec![ResolvedArg::Other]);
    assert_eq!(
        r.unwrap_err(),
        "Invalid input. Please provide a GitHub username."
    );
    let r2 = lookup_request(&vec![ResolvedArg::Other, ResolvedArg::Text(String::from("u"))]);
    assert!(r2.is_err());
}

#[test]
fn string_first_option_gives_lookup_url() {
    let r = lookup_request(&vec![ResolvedArg::Text(String::from("octocat"))]);
    assert_eq!(r.unwrap(), "https://api.github.com/users/octocat");
}

#[test]
fn url_substitutes_username_verbatim() {
    assert_eq!(build_url("foo/bar"), "https://api.github.com/users/foo/bar");
    assert_eq!(build_url(""), "https://api.github.com/users/");
    assert_eq!(
        build_url("a b?c=d"),
        "https://api.github.com/users/a b?c=d"
    );
}

#[test]
fn fixed_replies_are_exact() {
    assert_eq!(
        fetch_failed_reply(),
        "Failed to fetch GitHub user information."
    );
    assert_eq!(
        invalid_input_reply(),
        "Invalid input. Please provide a GitHub username."
    );
}

#[test]
fn decimal_rendering_is_exact() {
    assert_eq!(u32_to_string(0), "0");
    assert_eq!(u32_to_string(7), "7");
    assert_eq!(u32_to_string(10), "10");
    assert_eq!(u32_to_string(583231), "583231");
    assert_eq!(u32_to_string(4294967295), "4294967295");
}

#[test]
fn render_uses_fixed_labels_and_order() {
    let u = GitHubUser {
        login: String::from("me"),
        id: 2,
        avatar_url: String::from("av"),
        html_url: String::from("https://github.com/me"),
        name: Some(String::from("Max")),
        company: Some(String::from("Acme")),
        blog: None,
        location: None,
        bio: Some(String::from("hi")),
        public_repos: 1,
        followers: 2,
        following: 3,
    };
    assert_eq!(
        render_profile(&u),
        "GitHub User: me\nName: Max\nBio: hi\nPublic Repos: 1\nFollowers: 2\nFollowing: 3\nProfile: https://github.com/me"
    );
}
